//! The executable parsers, one per field plus the whole-document
//! orchestrator. Each is verified to return exactly what the grammar's spec
//! functions compute, errors included.

use vstd::prelude::*;
use vstd::string::StrSliceExecFns;
use crate::grammar::spec_newline;
use crate::grammar::spec_parse_humidity;
use crate::grammar::spec_parse_opt_line;
use crate::grammar::spec_parse_pressure;
use crate::grammar::spec_parse_sky;
use crate::grammar::spec_parse_station;
use crate::grammar::spec_parse_temperature;
use crate::grammar::spec_parse_time;
use crate::grammar::spec_parse_weather;
use crate::grammar::spec_parse_weather_desc;
use crate::grammar::spec_parse_wind;
use crate::grammar::spec_station_of_line;
use crate::grammar::spec_tag;
use crate::grammar::spec_wind_directional;
use crate::grammar::spec_wind_variable;
use crate::number::parse_decimal;
use crate::number::parse_i16_digits;
use crate::number::parse_u16_digits;
use crate::number::parse_u32_digits;
use crate::number::parse_u8_digits;
use crate::text::find_char_from;
use crate::text::find_space_char_from;
use crate::text::lemma_find_from;
use crate::text::lemma_find_space_from;
use crate::text::lemma_skip_blanks_from;
use crate::text::skip_blank_chars_from;
use crate::text::starts_with_at;
use crate::text::str_eq_nocase;
use crate::text::trim;
use crate::types::opt_station_view;
use crate::types::opt_string_view;

pub use crate::number::Decimal;
pub use crate::types::Station;
pub use crate::types::Temperature;
pub use crate::types::WeatherError;
pub use crate::types::WeatherInfo;
pub use crate::types::WeatherTime;
pub use crate::types::WindInfo;

verus! {

/// Station identity of one already-extracted header line: `None` for the
/// sentinel header (compared ignoring ASCII case) and for a line without a
/// comma; otherwise the text before the first comma is the place and the
/// text after it, cut at the first `(` and trimmed, is the country.
pub fn station_of_line(line: &str) -> (r: Option<Station>)
    ensures
        opt_station_view(r) == spec_station_of_line(line@),
{
    if str_eq_nocase(line, "Station name not available") {
        return None;
    }
    let llen = line.unicode_len();
    let comma = find_char_from(line, 0, ',');
    proof {
        lemma_find_from(line@, 0, ',');
    }
    if comma == llen {
        return None;
    }
    let seg = line.substring_char(comma + 1, llen);
    let paren = find_char_from(seg, 0, '(');
    proof {
        lemma_find_from(seg@, 0, '(');
    }
    let cut = seg.substring_char(0, paren);
    let country = trim(cut);
    let place = line.substring_char(0, comma).to_owned();
    Some(Station { place, country })
}

/// Station header at `pos`: consumes up to the line break and never fails.
fn station_at(s: &str, pos: usize) -> (r: (usize, Option<Station>))
    requires
        pos <= s@.len(),
    ensures
        ({
            let (n, st) = spec_parse_station(s@, pos as int);
            &&& r.0 == n
            &&& opt_station_view(r.1) == st
            &&& pos <= r.0 <= s@.len()
        }),
{
    let nl = find_char_from(s, pos, '\n');
    proof {
        lemma_find_from(s@, pos as int, '\n');
    }
    let line = s.substring_char(pos, nl);
    let st = station_of_line(line);
    (nl, st)
}

/// One consumed line break at `pos`.
fn newline_at(s: &str, pos: usize) -> (r: Result<usize, WeatherError>)
    requires
        pos <= s@.len(),
    ensures
        match spec_newline(s@, pos as int) {
            Ok(n) => r matches Ok(p) && p == n && pos < n <= s@.len(),
            Err(e) => r matches Err(x) && x@ == e,
        },
{
    let n = s.unicode_len();
    if pos < n && s.get_char(pos) == '\n' {
        Ok(pos + 1)
    } else {
        Err(WeatherError::UnexpectedInput(pos))
    }
}

/// One consumed literal tag at `pos`.
fn tag_at(s: &str, pos: usize, tag: &str) -> (r: Result<usize, WeatherError>)
    requires
        pos <= s@.len(),
    ensures
        match spec_tag(s@, pos as int, tag@) {
            Ok(n) => r matches Ok(p) && p == n && pos <= n <= s@.len(),
            Err(e) => r matches Err(x) && x@ == e,
        },
{
    let n = s.unicode_len();
    if starts_with_at(s, pos, tag) {
        Ok(pos + tag.unicode_len())
    } else {
        Err(WeatherError::UnexpectedInput(pos))
    }
}

/// Timestamp field at `pos`.
fn time_at(s: &str, pos: usize) -> (r: Result<(usize, WeatherTime), WeatherError>)
    requires
        pos <= s@.len(),
    ensures
        match spec_parse_time(s@, pos as int) {
            Ok((n, v)) => r matches Ok(p) && p.0 == n && p.1@ == v && pos <= n <= s@.len(),
            Err(e) => r matches Err(x) && x@ == e,
        },
{
    let n = s.unicode_len();
    let sl = find_char_from(s, pos, '/');
    proof {
        lemma_find_from(s@, pos as int, '/');
    }
    if sl == n {
        return Err(WeatherError::MalformedTimestamp(sl));
    }
    if !(sl + 1 < n && s.get_char(sl + 1) == ' ') {
        return Err(WeatherError::MalformedTimestamp(sl + 1));
    }
    let ys = sl + 2;
    let yd = find_char_from(s, ys, '.');
    proof {
        lemma_find_from(s@, ys as int, '.');
    }
    let year = match parse_u16_digits(s, ys, yd) {
        Some(v) => v,
        None => {
            return Err(WeatherError::MalformedTimestamp(ys));
        },
    };
    if yd == n {
        return Err(WeatherError::MalformedTimestamp(yd));
    }
    let ms = yd + 1;
    let md = find_char_from(s, ms, '.');
    proof {
        lemma_find_from(s@, ms as int, '.');
    }
    let month = match parse_u8_digits(s, ms, md) {
        Some(v) => v,
        None => {
            return Err(WeatherError::MalformedTimestamp(ms));
        },
    };
    if md == n {
        return Err(WeatherError::MalformedTimestamp(md));
    }
    let ds = md + 1;
    let dd = find_char_from(s, ds, ' ');
    proof {
        lemma_find_from(s@, ds as int, ' ');
    }
    let day = match parse_u8_digits(s, ds, dd) {
        Some(v) => v,
        None => {
            return Err(WeatherError::MalformedTimestamp(ds));
        },
    };
    if dd == n {
        return Err(WeatherError::MalformedTimestamp(dd));
    }
    let ts = dd + 1;
    let te = find_char_from(s, ts, '\n');
    proof {
        lemma_find_from(s@, ts as int, '\n');
    }
    let time = s.substring_char(ts, te).to_owned();
    Ok((te, WeatherTime { year, month, day, time }))
}

/// The directional wind shape at `pos`, or `None` when the line is not of
/// that shape.
fn wind_directional_at(s: &str, pos: usize) -> (r: Option<(usize, WindInfo)>)
    requires
        pos <= s@.len(),
    ensures
        match spec_wind_directional(s@, pos as int) {
            Some((n, v)) => r matches Some(p) && p.0 == n && p.1@ == v && pos <= n <= s@.len(),
            None => r is None,
        },
{
    let n = s.unicode_len();
    let t = "Wind: from the ";
    if !starts_with_at(s, pos, t) {
        return None;
    }
    let cs = pos + t.unicode_len();
    let ce = find_space_char_from(s, cs);
    proof {
        lemma_find_space_from(s@, cs as int);
    }
    let bp = skip_blank_chars_from(s, ce);
    proof {
        lemma_skip_blanks_from(s@, ce as int);
    }
    if !(bp > ce && bp < n && s.get_char(bp) == '(') {
        return None;
    }
    let azs = bp + 1;
    let aze = find_space_char_from(s, azs);
    proof {
        lemma_find_space_from(s@, azs as int);
    }
    let azimuth = match parse_u32_digits(s, azs, aze) {
        Some(v) => v,
        None => {
            return None;
        },
    };
    let dt = " degrees) at ";
    if !starts_with_at(s, aze, dt) {
        return None;
    }
    let ms = aze + dt.unicode_len();
    let me = find_space_char_from(s, ms);
    proof {
        lemma_find_space_from(s@, ms as int);
    }
    let mph = match parse_decimal(s, ms, me) {
        Some(v) => v,
        None => {
            return None;
        },
    };
    let mt = " MPH (";
    if !starts_with_at(s, me, mt) {
        return None;
    }
    let ks = me + mt.unicode_len();
    let ke = find_space_char_from(s, ks);
    proof {
        lemma_find_space_from(s@, ks as int);
    }
    let knots = match parse_decimal(s, ks, ke) {
        Some(v) => v,
        None => {
            return None;
        },
    };
    let end = find_char_from(s, ke, '\n');
    proof {
        lemma_find_from(s@, ke as int, '\n');
    }
    let cardinal = s.substring_char(cs, ce).to_owned();
    Some((end, WindInfo { cardinal, azimuth, mph, knots }))
}

/// The variable wind shape at `pos`, or `None` when the line is not of that
/// shape.
fn wind_variable_at(s: &str, pos: usize) -> (r: Option<(usize, WindInfo)>)
    requires
        pos <= s@.len(),
    ensures
        match spec_wind_variable(s@, pos as int) {
            Some((n, v)) => r matches Some(p) && p.0 == n && p.1@ == v && pos <= n <= s@.len(),
            None => r is None,
        },
{
    let n = s.unicode_len();
    let t = "Wind: Variable at ";
    if !starts_with_at(s, pos, t) {
        return None;
    }
    let ms = pos + t.unicode_len();
    let me = find_space_char_from(s, ms);
    proof {
        lemma_find_space_from(s@, ms as int);
    }
    let mph = match parse_decimal(s, ms, me) {
        Some(v) => v,
        None => {
            return None;
        },
    };
    let mt = " MPH (";
    if !starts_with_at(s, me, mt) {
        return None;
    }
    let ks = me + mt.unicode_len();
    let ke = find_space_char_from(s, ks);
    proof {
        lemma_find_space_from(s@, ks as int);
    }
    let knots = match parse_decimal(s, ks, ke) {
        Some(v) => v,
        None => {
            return None;
        },
    };
    let end = find_char_from(s, ke, '\n');
    proof {
        lemma_find_from(s@, ke as int, '\n');
    }
    let mut w = WindInfo::default();
    w.mph = mph;
    w.knots = knots;
    Some((end, w))
}

/// Wind field at `pos`: calm, directional and variable shapes tried in that
/// order.
fn wind_at(s: &str, pos: usize) -> (r: Result<(usize, WindInfo), WeatherError>)
    requires
        pos <= s@.len(),
    ensures
        match spec_parse_wind(s@, pos as int) {
            Ok((n, v)) => r matches Ok(p) && p.0 == n && p.1@ == v && pos <= n <= s@.len(),
            Err(e) => r matches Err(x) && x@ == e,
        },
{
    let ct = "Wind: Calm:0";
    if starts_with_at(s, pos, ct) {
        let n = s.unicode_len();
        return Ok((pos + ct.unicode_len(), WindInfo::default()));
    }
    match wind_directional_at(s, pos) {
        Some(p) => Ok(p),
        None => match wind_variable_at(s, pos) {
            Some(p) => Ok(p),
            None => Err(WeatherError::UnrecognizedWindFormat(pos)),
        },
    }
}

/// An optional line introduced by `tag`: on a tag mismatch the cursor stays
/// where it was and the value is `None`.
fn opt_line_at(s: &str, pos: usize, tag: &str) -> (r: Result<
    (usize, Option<String>),
    WeatherError,
>)
    requires
        pos <= s@.len(),
    ensures
        match spec_parse_opt_line(s@, pos as int, tag@) {
            Ok((n, v)) => r matches Ok(p) && p.0 == n && opt_string_view(p.1) == v && pos <= n
                <= s@.len(),
            Err(e) => r matches Err(x) && x@ == e,
        },
{
    let n = s.unicode_len();
    if starts_with_at(s, pos, tag) {
        let vs = pos + tag.unicode_len();
        let ve = find_char_from(s, vs, '\n');
        proof {
            lemma_find_from(s@, vs as int, '\n');
        }
        if ve == n {
            Err(WeatherError::UnexpectedInput(ve))
        } else {
            let value = s.substring_char(vs, ve).to_owned();
            Ok((ve + 1, Some(value)))
        }
    } else {
        Ok((pos, None))
    }
}

/// Temperature value pair at `pos` (the introducing tag is consumed by the
/// orchestrator).
fn temperature_at(s: &str, pos: usize) -> (r: Result<(usize, Temperature), WeatherError>)
    requires
        pos <= s@.len(),
    ensures
        match spec_parse_temperature(s@, pos as int) {
            Ok((n, v)) => r matches Ok(p) && p.0 == n && p.1 == v && pos <= n <= s@.len(),
            Err(e) => r matches Err(x) && x@ == e,
        },
{
    let n = s.unicode_len();
    let b = skip_blank_chars_from(s, pos);
    proof {
        lemma_skip_blanks_from(s@, pos as int);
    }
    if b == pos {
        return Err(WeatherError::UnexpectedInput(pos));
    }
    let fe = find_space_char_from(s, b);
    proof {
        lemma_find_space_from(s@, b as int);
    }
    let fahrenheit = match parse_decimal(s, b, fe) {
        Some(v) => v,
        None => {
            return Err(WeatherError::MalformedNumber(b));
        },
    };
    let it = " F (";
    if !starts_with_at(s, fe, it) {
        return Err(WeatherError::UnexpectedInput(fe));
    }
    let cs = fe + it.unicode_len();
    let ce = find_space_char_from(s, cs);
    proof {
        lemma_find_space_from(s@, cs as int);
    }
    let celsius = match parse_decimal(s, cs, ce) {
        Some(v) => v,
        None => {
            return Err(WeatherError::MalformedNumber(cs));
        },
    };
    let end = find_char_from(s, ce, '\n');
    proof {
        lemma_find_from(s@, ce as int, '\n');
    }
    Ok((end, Temperature { celsius, fahrenheit }))
}

/// Relative-humidity field at `pos`, tag included.
fn humidity_at(s: &str, pos: usize) -> (r: Result<(usize, u32), WeatherError>)
    requires
        pos <= s@.len(),
    ensures
        match spec_parse_humidity(s@, pos as int) {
            Ok((n, v)) => r matches Ok(p) && p.0 == n && p.1 == v && pos <= n <= s@.len(),
            Err(e) => r matches Err(x) && x@ == e,
        },
{
    let n = s.unicode_len();
    let t = "Relative Humidity: ";
    if !starts_with_at(s, pos, t) {
        return Err(WeatherError::UnexpectedInput(pos));
    }
    let hs = pos + t.unicode_len();
    let he = find_char_from(s, hs, '%');
    proof {
        lemma_find_from(s@, hs as int, '%');
    }
    let value = match parse_u32_digits(s, hs, he) {
        Some(v) => v,
        None => {
            return Err(WeatherError::MalformedNumber(hs));
        },
    };
    if he == n {
        return Err(WeatherError::UnexpectedInput(he));
    }
    Ok((he + 1, value))
}

/// Pressure field at `pos`, tag included.
fn pressure_at(s: &str, pos: usize) -> (r: Result<(usize, i16), WeatherError>)
    requires
        pos <= s@.len(),
    ensures
        match spec_parse_pressure(s@, pos as int) {
            Ok((n, v)) => r matches Ok(p) && p.0 == n && p.1 == v && pos <= n <= s@.len(),
            Err(e) => r matches Err(x) && x@ == e,
        },
{
    let n = s.unicode_len();
    let t = "Pressure (altimeter): ";
    if !starts_with_at(s, pos, t) {
        return Err(WeatherError::UnexpectedInput(pos));
    }
    let op = find_char_from(s, pos + t.unicode_len(), '(');
    proof {
        lemma_find_from(s@, pos as int + t@.len(), '(');
    }
    if op == n {
        return Err(WeatherError::UnexpectedInput(op));
    }
    let vs = op + 1;
    let ve = find_space_char_from(s, vs);
    proof {
        lemma_find_space_from(s@, vs as int);
    }
    let value = match parse_i16_digits(s, vs, ve) {
        Some(v) => v,
        None => {
            return Err(WeatherError::MalformedNumber(vs));
        },
    };
    let end = find_char_from(s, ve, '\n');
    proof {
        lemma_find_from(s@, ve as int, '\n');
    }
    Ok((end, value))
}

/// The remainder of `i` from position `n` on.
fn rest_from<'a>(i: &'a str, n: usize) -> (r: &'a str)
    requires
        n <= i@.len(),
    ensures
        r@ == i@.subrange(n as int, i@.len() as int),
{
    i.substring_char(n, i.unicode_len())
}

/// Parses the station header line. Returns the unconsumed remainder (the
/// line break is not consumed) and the station identity: `None` for the
/// "Station name not available" sentinel and for headers without a comma —
/// station identity is best effort, never an error.
pub fn parse_station<'a>(i: &'a str) -> (r: (&'a str, Option<Station>))
    ensures
        ({
            let (n, st) = spec_parse_station(i@, 0);
            &&& r.0@ == i@.subrange(n, i@.len() as int)
            &&& opt_station_view(r.1) == st
        }),
{
    let (n, st) = station_at(i, 0);
    (rest_from(i, n), st)
}

/// Parses the timestamp line (not including its line break): everything up
/// to the `/` separator is skipped, then `YYYY.MM.DD ` and the free-text
/// time of day. Any failure is a fatal `MalformedTimestamp`.
pub fn parse_time<'a>(i: &'a str) -> (r: Result<(&'a str, WeatherTime), WeatherError>)
    ensures
        match spec_parse_time(i@, 0) {
            Ok((n, v)) => r matches Ok(p) && p.0@ == i@.subrange(n, i@.len() as int) && p.1@ == v,
            Err(e) => r matches Err(x) && x@ == e,
        },
{
    match time_at(i, 0) {
        Ok((n, v)) => Ok((rest_from(i, n), v)),
        Err(e) => Err(e),
    }
}

/// Parses the wind line (not including its line break), trying the calm,
/// directional and variable shapes in order; any other shape is a fatal
/// `UnrecognizedWindFormat`.
pub fn parse_windinfo<'a>(i: &'a str) -> (r: Result<(&'a str, WindInfo), WeatherError>)
    ensures
        match spec_parse_wind(i@, 0) {
            Ok((n, v)) => r matches Ok(p) && p.0@ == i@.subrange(n, i@.len() as int) && p.1@ == v,
            Err(e) => r matches Err(x) && x@ == e,
        },
{
    match wind_at(i, 0) {
        Ok((n, v)) => Ok((rest_from(i, n), v)),
        Err(e) => Err(e),
    }
}

/// Parses a temperature value pair ` <fahrenheit> F (<celsius> C)` with an
/// ignored rest of line; the introducing tag (`Temperature:` / `Dew Point:`)
/// must already be consumed.
pub fn parse_temperature<'a>(i: &'a str) -> (r: Result<(&'a str, Temperature), WeatherError>)
    ensures
        match spec_parse_temperature(i@, 0) {
            Ok((n, v)) => r matches Ok(p) && p.0@ == i@.subrange(n, i@.len() as int) && p.1 == v,
            Err(e) => r matches Err(x) && x@ == e,
        },
{
    match temperature_at(i, 0) {
        Ok((n, v)) => Ok((rest_from(i, n), v)),
        Err(e) => Err(e),
    }
}

/// Parses the optional sky-condition line, line break included; when the
/// line is absent the input is left unmoved and the value is `None`.
pub fn parse_sky_condition<'a>(i: &'a str) -> (r: Result<
    (&'a str, Option<String>),
    WeatherError,
>)
    ensures
        match spec_parse_sky(i@, 0) {
            Ok((n, v)) => r matches Ok(p) && p.0@ == i@.subrange(n, i@.len() as int)
                && opt_string_view(p.1) == v,
            Err(e) => r matches Err(x) && x@ == e,
        },
{
    match opt_line_at(i, 0, "Sky conditions: ") {
        Ok((n, v)) => Ok((rest_from(i, n), v)),
        Err(e) => Err(e),
    }
}

/// Parses the optional weather-description line, line break included; when
/// the line is absent the input is left unmoved and the value is `None`.
pub fn parse_weather_str<'a>(i: &'a str) -> (r: Result<(&'a str, Option<String>), WeatherError>)
    ensures
        match spec_parse_weather_desc(i@, 0) {
            Ok((n, v)) => r matches Ok(p) && p.0@ == i@.subrange(n, i@.len() as int)
                && opt_string_view(p.1) == v,
            Err(e) => r matches Err(x) && x@ == e,
        },
{
    match opt_line_at(i, 0, "Weather: ") {
        Ok((n, v)) => Ok((rest_from(i, n), v)),
        Err(e) => Err(e),
    }
}

/// Parses the relative-humidity field: its tag, the digit run, and the `%`
/// sign. A non-numeric value is a fatal `MalformedNumber`.
pub fn parse_relative_humidity<'a>(i: &'a str) -> (r: Result<(&'a str, u32), WeatherError>)
    ensures
        match spec_parse_humidity(i@, 0) {
            Ok((n, v)) => r matches Ok(p) && p.0@ == i@.subrange(n, i@.len() as int) && p.1 == v,
            Err(e) => r matches Err(x) && x@ == e,
        },
{
    match humidity_at(i, 0) {
        Ok((n, v)) => Ok((rest_from(i, n), v)),
        Err(e) => Err(e),
    }
}

/// Parses the pressure line (not including a line break): the
/// inches-of-mercury reading is skipped and the integer hectopascal value
/// inside the parentheses is returned. A non-numeric value is a fatal
/// `MalformedNumber`.
pub fn parse_pressure<'a>(i: &'a str) -> (r: Result<(&'a str, i16), WeatherError>)
    ensures
        match spec_parse_pressure(i@, 0) {
            Ok((n, v)) => r matches Ok(p) && p.0@ == i@.subrange(n, i@.len() as int) && p.1 == v,
            Err(e) => r matches Err(x) && x@ == e,
        },
{
    match pressure_at(i, 0) {
        Ok((n, v)) => Ok((rest_from(i, n), v)),
        Err(e) => Err(e),
    }
}

/// Parses a whole decoded bulletin, field by field in document order, and
/// returns the record together with the unconsumed trailer (the coded
/// `ob:`/`cycle:` lines, if present). Trailing bytes are a normal, successful
/// outcome; the first malformed mandatory field aborts the parse with its
/// error.
pub fn parse_weather<'a>(i: &'a str) -> (r: Result<(&'a str, WeatherInfo), WeatherError>)
    ensures
        match spec_parse_weather(i@) {
            Ok((n, v)) => r matches Ok(p) && p.0@ == i@.subrange(n, i@.len() as int) && p.1@ == v,
            Err(e) => r matches Err(x) && x@ == e,
        },
{
    let (pa, station) = station_at(i, 0);
    let p1 = match newline_at(i, pa) {
        Ok(p) => p,
        Err(e) => {
            return Err(e);
        },
    };
    let (pb, weather_time) = match time_at(i, p1) {
        Ok(p) => p,
        Err(e) => {
            return Err(e);
        },
    };
    let p2 = match newline_at(i, pb) {
        Ok(p) => p,
        Err(e) => {
            return Err(e);
        },
    };
    let (pc, wind) = match wind_at(i, p2) {
        Ok(p) => p,
        Err(e) => {
            return Err(e);
        },
    };
    let p3 = match newline_at(i, pc) {
        Ok(p) => p,
        Err(e) => {
            return Err(e);
        },
    };
    let pd = match tag_at(i, p3, "Visibility: ") {
        Ok(p) => p,
        Err(e) => {
            return Err(e);
        },
    };
    let pe = find_char_from(i, pd, '\n');
    proof {
        lemma_find_from(i@, pd as int, '\n');
    }
    let visibility = i.substring_char(pd, pe).to_owned();
    let p4 = match newline_at(i, pe) {
        Ok(p) => p,
        Err(e) => {
            return Err(e);
        },
    };
    let (p5, sky_condition) = match opt_line_at(i, p4, "Sky conditions: ") {
        Ok(p) => p,
        Err(e) => {
            return Err(e);
        },
    };
    let (p6, weather) = match opt_line_at(i, p5, "Weather: ") {
        Ok(p) => p,
        Err(e) => {
            return Err(e);
        },
    };
    let pf = match tag_at(i, p6, "Temperature:") {
        Ok(p) => p,
        Err(e) => {
            return Err(e);
        },
    };
    let (pg, temperature) = match temperature_at(i, pf) {
        Ok(p) => p,
        Err(e) => {
            return Err(e);
        },
    };
    let p7 = match newline_at(i, pg) {
        Ok(p) => p,
        Err(e) => {
            return Err(e);
        },
    };
    let ph = match tag_at(i, p7, "Dew Point:") {
        Ok(p) => p,
        Err(e) => {
            return Err(e);
        },
    };
    let (pi, dewpoint) = match temperature_at(i, ph) {
        Ok(p) => p,
        Err(e) => {
            return Err(e);
        },
    };
    let p8 = match newline_at(i, pi) {
        Ok(p) => p,
        Err(e) => {
            return Err(e);
        },
    };
    let (pj, relative_humidity) = match humidity_at(i, p8) {
        Ok(p) => p,
        Err(e) => {
            return Err(e);
        },
    };
    let p9 = match newline_at(i, pj) {
        Ok(p) => p,
        Err(e) => {
            return Err(e);
        },
    };
    let (p10, pressure) = match pressure_at(i, p9) {
        Ok(p) => p,
        Err(e) => {
            return Err(e);
        },
    };
    let info = WeatherInfo {
        station,
        weather_time,
        wind,
        visibility,
        sky_condition,
        weather,
        temperature,
        dewpoint,
        relative_humidity,
        pressure,
    };
    Ok((rest_from(i, p10), info))
}

} // verus!
