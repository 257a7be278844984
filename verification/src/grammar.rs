//! Functional specification of the bulletin grammar.
//!
//! One spec function per field parser and one for the whole document. Each
//! returns either the position just past what the field consumed together
//! with the field's value, or the error the parse fails with. The executable
//! parsers are verified to return exactly these results.

use vstd::prelude::*;
use crate::number::digits_fit;
use crate::number::digits_val;
use crate::number::spec_decimal;
use crate::text::find_from;
use crate::text::find_space_from;
use crate::text::match_at;
use crate::text::seq_eq_nocase;
use crate::text::skip_blanks_from;
use crate::text::spec_trim;
use crate::types::StationView;
use crate::types::Temperature;
use crate::types::WeatherErrorView;
use crate::types::WeatherInfoView;
use crate::types::WeatherTimeView;
use crate::types::WindInfoView;
use crate::types::spec_default_wind;

verus! {

/// Header text standing in for a missing station name.
pub open spec fn station_sentinel() -> Seq<char> {
    "Station name not available"@
}

pub open spec fn visibility_tag() -> Seq<char> {
    "Visibility: "@
}

pub open spec fn sky_tag() -> Seq<char> {
    "Sky conditions: "@
}

pub open spec fn weather_tag() -> Seq<char> {
    "Weather: "@
}

pub open spec fn temperature_tag() -> Seq<char> {
    "Temperature:"@
}

pub open spec fn dew_point_tag() -> Seq<char> {
    "Dew Point:"@
}

pub open spec fn humidity_tag() -> Seq<char> {
    "Relative Humidity: "@
}

pub open spec fn pressure_tag() -> Seq<char> {
    "Pressure (altimeter): "@
}

pub open spec fn wind_calm_tag() -> Seq<char> {
    "Wind: Calm:0"@
}

pub open spec fn wind_dir_tag() -> Seq<char> {
    "Wind: from the "@
}

pub open spec fn wind_degrees_tag() -> Seq<char> {
    " degrees) at "@
}

pub open spec fn wind_mph_tag() -> Seq<char> {
    " MPH ("@
}

pub open spec fn wind_var_tag() -> Seq<char> {
    "Wind: Variable at "@
}

/// Infix between the two temperature readings of a value pair.
pub open spec fn temp_infix_tag() -> Seq<char> {
    " F ("@
}

/// Station identity carried by one header line: `None` for the sentinel
/// header (compared ignoring ASCII case) and for a header without a comma;
/// otherwise the text before the first comma is the place and the text after
/// it, cut at the first `(` and trimmed, is the country.
pub open spec fn spec_station_of_line(line: Seq<char>) -> Option<StationView> {
    if seq_eq_nocase(line, station_sentinel()) {
        None
    } else {
        let comma = find_from(line, 0, ',');
        if comma == line.len() {
            None
        } else {
            let seg = line.subrange(comma + 1, line.len() as int);
            let cut = seg.subrange(0, find_from(seg, 0, '('));
            Some(StationView { place: line.subrange(0, comma), country: spec_trim(cut) })
        }
    }
}

/// The station parser consumes the header up to (not including) the line
/// break and never fails: an unusable header is `None`, not an error.
pub open spec fn spec_parse_station(s: Seq<char>, pos: int) -> (int, Option<StationView>) {
    let nl = find_from(s, pos, '\n');
    (nl, spec_station_of_line(s.subrange(pos, nl)))
}

/// The timestamp parser scans past the `/` separator and one space, then
/// reads `YYYY.MM.DD ` and a free-text suffix running to the end of the line.
/// Every failure here is fatal and reported as `MalformedTimestamp`.
pub open spec fn spec_parse_time(s: Seq<char>, pos: int) -> Result<
    (int, WeatherTimeView),
    WeatherErrorView,
> {
    let sl = find_from(s, pos, '/');
    if sl == s.len() {
        Err(WeatherErrorView::MalformedTimestamp(sl))
    } else if !(sl + 1 < s.len() && s[sl + 1] == ' ') {
        Err(WeatherErrorView::MalformedTimestamp(sl + 1))
    } else {
        let ys = sl + 2;
        let yd = find_from(s, ys, '.');
        if !digits_fit(s.subrange(ys, yd), u16::MAX as int) {
            Err(WeatherErrorView::MalformedTimestamp(ys))
        } else if yd == s.len() {
            Err(WeatherErrorView::MalformedTimestamp(yd))
        } else {
            let ms = yd + 1;
            let md = find_from(s, ms, '.');
            if !digits_fit(s.subrange(ms, md), u8::MAX as int) {
                Err(WeatherErrorView::MalformedTimestamp(ms))
            } else if md == s.len() {
                Err(WeatherErrorView::MalformedTimestamp(md))
            } else {
                let ds = md + 1;
                let dd = find_from(s, ds, ' ');
                if !digits_fit(s.subrange(ds, dd), u8::MAX as int) {
                    Err(WeatherErrorView::MalformedTimestamp(ds))
                } else if dd == s.len() {
                    Err(WeatherErrorView::MalformedTimestamp(dd))
                } else {
                    let ts = dd + 1;
                    let te = find_from(s, ts, '\n');
                    Ok(
                        (
                            te,
                            WeatherTimeView {
                                year: digits_val(s.subrange(ys, yd)) as u16,
                                month: digits_val(s.subrange(ms, md)) as u8,
                                day: digits_val(s.subrange(ds, dd)) as u8,
                                time: s.subrange(ts, te),
                            },
                        ),
                    )
                }
            }
        }
    }
}

/// The directional wind shape: `Wind: from the <cardinal> (<azimuth>
/// degrees) at <mph> MPH (<knots>` and an ignored rest of the line.
/// `None` when the line is not of this shape.
pub open spec fn spec_wind_directional(s: Seq<char>, pos: int) -> Option<(int, WindInfoView)> {
    if !match_at(s, pos, wind_dir_tag()) {
        None
    } else {
        let cs = pos + wind_dir_tag().len();
        let ce = find_space_from(s, cs);
        let bp = skip_blanks_from(s, ce);
        if !(bp > ce && bp < s.len() && s[bp] == '(') {
            None
        } else {
            let azs = bp + 1;
            let aze = find_space_from(s, azs);
            if !digits_fit(s.subrange(azs, aze), u32::MAX as int) {
                None
            } else if !match_at(s, aze, wind_degrees_tag()) {
                None
            } else {
                let ms = aze + wind_degrees_tag().len();
                let me = find_space_from(s, ms);
                match spec_decimal(s.subrange(ms, me)) {
                    None => None,
                    Some(mph) => if !match_at(s, me, wind_mph_tag()) {
                        None
                    } else {
                        let ks = me + wind_mph_tag().len();
                        let ke = find_space_from(s, ks);
                        match spec_decimal(s.subrange(ks, ke)) {
                            None => None,
                            Some(knots) => Some(
                                (
                                    find_from(s, ke, '\n'),
                                    WindInfoView {
                                        cardinal: s.subrange(cs, ce),
                                        azimuth: digits_val(s.subrange(azs, aze)) as u32,
                                        mph,
                                        knots,
                                    },
                                ),
                            ),
                        }
                    },
                }
            }
        }
    }
}

/// The variable wind shape: `Wind: Variable at <mph> MPH (<knots>` and an
/// ignored rest of the line; direction fields keep their default sentinels.
/// `None` when the line is not of this shape.
pub open spec fn spec_wind_variable(s: Seq<char>, pos: int) -> Option<(int, WindInfoView)> {
    if !match_at(s, pos, wind_var_tag()) {
        None
    } else {
        let ms = pos + wind_var_tag().len();
        let me = find_space_from(s, ms);
        match spec_decimal(s.subrange(ms, me)) {
            None => None,
            Some(mph) => if !match_at(s, me, wind_mph_tag()) {
                None
            } else {
                let ks = me + wind_mph_tag().len();
                let ke = find_space_from(s, ks);
                match spec_decimal(s.subrange(ks, ke)) {
                    None => None,
                    Some(knots) => Some(
                        (
                            find_from(s, ke, '\n'),
                            WindInfoView {
                                cardinal: Seq::empty(),
                                azimuth: 0,
                                mph,
                                knots,
                            },
                        ),
                    ),
                }
            },
        }
    }
}

/// The wind parser tries the calm, directional and variable shapes in that
/// order; a line matching none of them fails the whole parse with
/// `UnrecognizedWindFormat`.
pub open spec fn spec_parse_wind(s: Seq<char>, pos: int) -> Result<
    (int, WindInfoView),
    WeatherErrorView,
> {
    if match_at(s, pos, wind_calm_tag()) {
        Ok((pos + wind_calm_tag().len(), spec_default_wind()))
    } else {
        match spec_wind_directional(s, pos) {
            Some(r) => Ok(r),
            None => match spec_wind_variable(s, pos) {
                Some(r) => Ok(r),
                None => Err(WeatherErrorView::UnrecognizedWindFormat(pos)),
            },
        }
    }
}

/// An optional line introduced by `tag`: when the tag is absent the cursor
/// does not move and the value is `None`; when it is present the rest of the
/// line and its line break are consumed.
pub open spec fn spec_parse_opt_line(s: Seq<char>, pos: int, tag: Seq<char>) -> Result<
    (int, Option<Seq<char>>),
    WeatherErrorView,
> {
    if match_at(s, pos, tag) {
        let vs = pos + tag.len();
        let ve = find_from(s, vs, '\n');
        if ve == s.len() {
            Err(WeatherErrorView::UnexpectedInput(ve))
        } else {
            Ok((ve + 1, Some(s.subrange(vs, ve))))
        }
    } else {
        Ok((pos, None))
    }
}

/// Optional sky-condition line.
pub open spec fn spec_parse_sky(s: Seq<char>, pos: int) -> Result<
    (int, Option<Seq<char>>),
    WeatherErrorView,
> {
    spec_parse_opt_line(s, pos, sky_tag())
}

/// Optional weather-description line.
pub open spec fn spec_parse_weather_desc(s: Seq<char>, pos: int) -> Result<
    (int, Option<Seq<char>>),
    WeatherErrorView,
> {
    spec_parse_opt_line(s, pos, weather_tag())
}

/// A temperature value pair ` <fahrenheit> F (<celsius>` with an ignored
/// rest of the line; a numeric token that does not parse is fatal.
pub open spec fn spec_parse_temperature(s: Seq<char>, pos: int) -> Result<
    (int, Temperature),
    WeatherErrorView,
> {
    let b = skip_blanks_from(s, pos);
    if b == pos {
        Err(WeatherErrorView::UnexpectedInput(pos))
    } else {
        let fe = find_space_from(s, b);
        match spec_decimal(s.subrange(b, fe)) {
            None => Err(WeatherErrorView::MalformedNumber(b)),
            Some(fahrenheit) => if !match_at(s, fe, temp_infix_tag()) {
                Err(WeatherErrorView::UnexpectedInput(fe))
            } else {
                let cs = fe + temp_infix_tag().len();
                let ce = find_space_from(s, cs);
                match spec_decimal(s.subrange(cs, ce)) {
                    None => Err(WeatherErrorView::MalformedNumber(cs)),
                    Some(celsius) => Ok(
                        (find_from(s, ce, '\n'), Temperature { celsius, fahrenheit }),
                    ),
                }
            },
        }
    }
}

/// The relative-humidity field: its tag, a digit run, and the `%` sign.
pub open spec fn spec_parse_humidity(s: Seq<char>, pos: int) -> Result<
    (int, u32),
    WeatherErrorView,
> {
    if !match_at(s, pos, humidity_tag()) {
        Err(WeatherErrorView::UnexpectedInput(pos))
    } else {
        let hs = pos + humidity_tag().len();
        let he = find_from(s, hs, '%');
        if !digits_fit(s.subrange(hs, he), u32::MAX as int) {
            Err(WeatherErrorView::MalformedNumber(hs))
        } else if he == s.len() {
            Err(WeatherErrorView::UnexpectedInput(he))
        } else {
            Ok((he + 1, digits_val(s.subrange(hs, he)) as u32))
        }
    }
}

/// The pressure field: its tag, the skipped inches-of-mercury reading up to
/// the first `(`, and the integer hectopascal value inside the parentheses;
/// the rest of the line is ignored.
pub open spec fn spec_parse_pressure(s: Seq<char>, pos: int) -> Result<
    (int, i16),
    WeatherErrorView,
> {
    if !match_at(s, pos, pressure_tag()) {
        Err(WeatherErrorView::UnexpectedInput(pos))
    } else {
        let op = find_from(s, pos + pressure_tag().len(), '(');
        if op == s.len() {
            Err(WeatherErrorView::UnexpectedInput(op))
        } else {
            let vs = op + 1;
            let ve = find_space_from(s, vs);
            if !digits_fit(s.subrange(vs, ve), i16::MAX as int) {
                Err(WeatherErrorView::MalformedNumber(vs))
            } else {
                Ok((find_from(s, ve, '\n'), digits_val(s.subrange(vs, ve)) as i16))
            }
        }
    }
}

/// One consumed line break.
pub open spec fn spec_newline(s: Seq<char>, pos: int) -> Result<int, WeatherErrorView> {
    if 0 <= pos < s.len() && s[pos] == '\n' {
        Ok(pos + 1)
    } else {
        Err(WeatherErrorView::UnexpectedInput(pos))
    }
}

/// One consumed literal tag.
pub open spec fn spec_tag(s: Seq<char>, pos: int, tag: Seq<char>) -> Result<
    int,
    WeatherErrorView,
> {
    if match_at(s, pos, tag) {
        Ok(pos + tag.len())
    } else {
        Err(WeatherErrorView::UnexpectedInput(pos))
    }
}

/// The station header line including its line break.
pub open spec fn spec_station_line(s: Seq<char>, pos: int) -> Result<
    (int, Option<StationView>),
    WeatherErrorView,
> {
    let (nl, station) = spec_parse_station(s, pos);
    match spec_newline(s, nl) {
        Ok(p) => Ok((p, station)),
        Err(e) => Err(e),
    }
}

/// The timestamp line including its line break.
pub open spec fn spec_time_line(s: Seq<char>, pos: int) -> Result<
    (int, WeatherTimeView),
    WeatherErrorView,
> {
    match spec_parse_time(s, pos) {
        Ok((n, v)) => match spec_newline(s, n) {
            Ok(p) => Ok((p, v)),
            Err(e) => Err(e),
        },
        Err(e) => Err(e),
    }
}

/// The wind line including its line break.
pub open spec fn spec_wind_line(s: Seq<char>, pos: int) -> Result<
    (int, WindInfoView),
    WeatherErrorView,
> {
    match spec_parse_wind(s, pos) {
        Ok((n, v)) => match spec_newline(s, n) {
            Ok(p) => Ok((p, v)),
            Err(e) => Err(e),
        },
        Err(e) => Err(e),
    }
}

/// The visibility line including its line break; the value is kept verbatim.
pub open spec fn spec_visibility_line(s: Seq<char>, pos: int) -> Result<
    (int, Seq<char>),
    WeatherErrorView,
> {
    match spec_tag(s, pos, visibility_tag()) {
        Ok(vs) => {
            let ve = find_from(s, vs, '\n');
            match spec_newline(s, ve) {
                Ok(p) => Ok((p, s.subrange(vs, ve))),
                Err(e) => Err(e),
            }
        },
        Err(e) => Err(e),
    }
}

/// A temperature line (`Temperature:` or `Dew Point:`) including its line
/// break.
pub open spec fn spec_temperature_line(s: Seq<char>, pos: int, tag: Seq<char>) -> Result<
    (int, Temperature),
    WeatherErrorView,
> {
    match spec_tag(s, pos, tag) {
        Ok(ts) => match spec_parse_temperature(s, ts) {
            Ok((n, v)) => match spec_newline(s, n) {
                Ok(p) => Ok((p, v)),
                Err(e) => Err(e),
            },
            Err(e) => Err(e),
        },
        Err(e) => Err(e),
    }
}

/// The relative-humidity line including its line break.
pub open spec fn spec_humidity_line(s: Seq<char>, pos: int) -> Result<
    (int, u32),
    WeatherErrorView,
> {
    match spec_parse_humidity(s, pos) {
        Ok((n, v)) => match spec_newline(s, n) {
            Ok(p) => Ok((p, v)),
            Err(e) => Err(e),
        },
        Err(e) => Err(e),
    }
}

/// The whole document: the field parsers in fixed order. On success the
/// returned position is where the unconsumed trailer starts; the trailer is
/// never inspected. The parse is not required to consume the entire input.
pub open spec fn spec_parse_weather(s: Seq<char>) -> Result<
    (int, WeatherInfoView),
    WeatherErrorView,
> {
    match spec_station_line(s, 0) {
        Err(e) => Err(e),
        Ok((p1, station)) => match spec_time_line(s, p1) {
            Err(e) => Err(e),
            Ok((p2, weather_time)) => match spec_wind_line(s, p2) {
                Err(e) => Err(e),
                Ok((p3, wind)) => match spec_visibility_line(s, p3) {
                    Err(e) => Err(e),
                    Ok((p4, visibility)) => match spec_parse_sky(s, p4) {
                        Err(e) => Err(e),
                        Ok((p5, sky_condition)) => match spec_parse_weather_desc(s, p5) {
                            Err(e) => Err(e),
                            Ok((p6, weather)) => match spec_temperature_line(
                                s,
                                p6,
                                temperature_tag(),
                            ) {
                                Err(e) => Err(e),
                                Ok((p7, temperature)) => match spec_temperature_line(
                                    s,
                                    p7,
                                    dew_point_tag(),
                                ) {
                                    Err(e) => Err(e),
                                    Ok((p8, dewpoint)) => match spec_humidity_line(s, p8) {
                                        Err(e) => Err(e),
                                        Ok((p9, relative_humidity)) => match spec_parse_pressure(
                                            s,
                                            p9,
                                        ) {
                                            Err(e) => Err(e),
                                            Ok((p10, pressure)) => Ok(
                                                (
                                                    p10,
                                                    WeatherInfoView {
                                                        station,
                                                        weather_time,
                                                        wind,
                                                        visibility,
                                                        sky_condition,
                                                        weather,
                                                        temperature,
                                                        dewpoint,
                                                        relative_humidity,
                                                        pressure,
                                                    },
                                                ),
                                            ),
                                        },
                                    },
                                },
                            },
                        },
                    },
                },
            },
        },
    }
}

} // verus!
