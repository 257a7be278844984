//! Document-level guarantees of the grammar, stated and proved once over the
//! spec functions; the executable parsers inherit them through their exact
//! contracts.

use vstd::prelude::*;
use crate::grammar::dew_point_tag;
use crate::grammar::pressure_tag;
use crate::grammar::spec_newline;
use crate::grammar::spec_parse_humidity;
use crate::grammar::spec_parse_opt_line;
use crate::grammar::spec_parse_time;
use crate::grammar::wind_degrees_tag;
use crate::grammar::wind_dir_tag;
use crate::grammar::wind_mph_tag;
use crate::grammar::wind_var_tag;
use crate::text::lemma_find_from_extend;
use crate::text::lemma_find_space_from;
use crate::text::lemma_find_space_from_extend;
use crate::text::lemma_match_at_extend;
use crate::text::lemma_match_at_neg_witness;
use crate::text::lemma_skip_blanks_from;
use crate::text::lemma_skip_blanks_from_extend;
use crate::text::lemma_subrange_extend;
use crate::grammar::sky_tag;
use crate::grammar::spec_parse_pressure;
use crate::grammar::spec_parse_sky;
use crate::grammar::spec_parse_station;
use crate::grammar::spec_parse_temperature;
use crate::grammar::spec_parse_weather;
use crate::grammar::spec_parse_weather_desc;
use crate::grammar::spec_parse_wind;
use crate::grammar::spec_station_line;
use crate::grammar::spec_station_of_line;
use crate::grammar::spec_tag;
use crate::grammar::spec_temperature_line;
use crate::grammar::spec_time_line;
use crate::grammar::spec_visibility_line;
use crate::grammar::spec_humidity_line;
use crate::grammar::spec_wind_directional;
use crate::grammar::spec_wind_line;
use crate::grammar::spec_wind_variable;
use crate::grammar::station_sentinel;
use crate::grammar::temperature_tag;
use crate::grammar::visibility_tag;
use crate::grammar::weather_tag;
use crate::grammar::wind_calm_tag;
use crate::number::digits_fit;
use crate::number::spec_decimal;
use crate::text::find_from;
use crate::text::find_space_from;
use crate::text::lemma_find_from;
use crate::text::match_at;
use crate::text::seq_eq_nocase;
use crate::text::skip_blanks_from;
use crate::text::spec_trim;
use crate::types::StationView;
use crate::types::Temperature;
use crate::types::WeatherErrorView;
use crate::types::WeatherInfoView;
use crate::types::WindInfoView;

verus! {

/// A header line that is not the sentinel and holds a comma names its
/// station: the text before the first comma is the place, and the text after
/// it, cut at the first `(` and trimmed, is the country.
pub proof fn lemma_named_station_is_some(line: Seq<char>)
    requires
        !seq_eq_nocase(line, station_sentinel()),
        find_from(line, 0, ',') < line.len(),
    ensures
        ({
            let comma = find_from(line, 0, ',');
            let seg = line.subrange(comma + 1, line.len() as int);
            let cut = seg.subrange(0, find_from(seg, 0, '('));
            spec_station_of_line(line) == Some(
                StationView { place: line.subrange(0, comma), country: spec_trim(cut) },
            )
        }),
{
    lemma_find_from(line, 0, ',');
}

/// A header line that equals the sentinel text, ignoring ASCII case, never
/// names a station.
pub proof fn lemma_sentinel_station_is_none(line: Seq<char>)
    requires
        seq_eq_nocase(line, station_sentinel()),
    ensures
        spec_station_of_line(line) == None::<StationView>,
{
}

/// In every successfully parsed report, the station field is exactly what
/// the header line (everything before the first line break) determines.
pub proof fn lemma_parse_weather_station(s: Seq<char>)
    requires
        spec_parse_weather(s) is Ok,
    ensures
        spec_parse_weather(s) matches Ok(r) ==> r.1.station == spec_station_of_line(
            s.subrange(0, find_from(s, 0, '\n')),
        ),
{
}

/// When the line at `pos` does not open with the sky-condition tag, the
/// sky-condition parser succeeds with no value and does not move the cursor,
/// so the following parser inspects the same line.
pub proof fn lemma_absent_sky_line(s: Seq<char>, pos: int)
    requires
        !match_at(s, pos, sky_tag()),
    ensures
        spec_parse_sky(s, pos) == Ok::<(int, Option<Seq<char>>), WeatherErrorView>(
            (pos, None::<Seq<char>>),
        ),
{
}

/// When the line at `pos` does not open with the weather-description tag,
/// the weather-description parser succeeds with no value and does not move
/// the cursor.
pub proof fn lemma_absent_weather_line(s: Seq<char>, pos: int)
    requires
        !match_at(s, pos, weather_tag()),
    ensures
        spec_parse_weather_desc(s, pos) == Ok::<(int, Option<Seq<char>>), WeatherErrorView>(
            (pos, None::<Seq<char>>),
        ),
{
}

/// A wind line that matches none of the three known shapes (calm,
/// directional, variable) is rejected as `UnrecognizedWindFormat`; the wind
/// parser never defaults silently.
pub proof fn lemma_unrecognized_wind_shape(s: Seq<char>, pos: int)
    requires
        !match_at(s, pos, wind_calm_tag()),
        spec_wind_directional(s, pos) is None,
        spec_wind_variable(s, pos) is None,
    ensures
        spec_parse_wind(s, pos) == Err::<(int, WindInfoView), WeatherErrorView>(
            WeatherErrorView::UnrecognizedWindFormat(pos),
        ),
{
}

/// A failed wind parse is fatal: when the report is well-formed up to the
/// wind line and the wind parser rejects, the whole document parse returns
/// exactly that error — no partial record.
pub proof fn lemma_wind_error_is_fatal(s: Seq<char>, p: int, e: WeatherErrorView)
    requires
        spec_station_line(s, 0) matches Ok(r1) && spec_time_line(s, r1.0) matches Ok(r2) && r2.0
            == p,
        spec_parse_wind(s, p) == Err::<(int, WindInfoView), WeatherErrorView>(e),
    ensures
        spec_parse_weather(s) == Err::<(int, WeatherInfoView), WeatherErrorView>(e),
{
}

/// Inside a temperature value pair, a leading numeric token that is not a
/// well-formed decimal is reported as `MalformedNumber` at the token's start.
pub proof fn lemma_temperature_bad_number(s: Seq<char>, pos: int)
    requires
        skip_blanks_from(s, pos) > pos,
        ({
            let b = skip_blanks_from(s, pos);
            spec_decimal(s.subrange(b, find_space_from(s, b))) is None
        }),
    ensures
        spec_parse_temperature(s, pos) == Err::<(int, Temperature), WeatherErrorView>(
            WeatherErrorView::MalformedNumber(skip_blanks_from(s, pos)),
        ),
{
}

/// A non-digit inside the pressure parentheses (or a value too large for the
/// field) is reported as `MalformedNumber` at the value's start.
pub proof fn lemma_pressure_bad_number(s: Seq<char>, pos: int)
    requires
        match_at(s, pos, pressure_tag()),
        find_from(s, pos + pressure_tag().len(), '(') < s.len(),
        ({
            let vs = find_from(s, pos + pressure_tag().len(), '(') + 1;
            !digits_fit(s.subrange(vs, find_space_from(s, vs)), i16::MAX as int)
        }),
    ensures
        spec_parse_pressure(s, pos) == Err::<(int, i16), WeatherErrorView>(
            WeatherErrorView::MalformedNumber(
                find_from(s, pos + pressure_tag().len(), '(') + 1,
            ),
        ),
{
}

/// A malformed ambient-temperature field is fatal: when the report is
/// well-formed up to the `Temperature:` tag and the value pair rejects, the
/// whole document parse returns exactly that error — no partial record.
pub proof fn lemma_temperature_error_is_fatal(s: Seq<char>, p: int, e: WeatherErrorView)
    requires
        spec_station_line(s, 0) matches Ok(r1) && spec_time_line(s, r1.0) matches Ok(r2)
            && spec_wind_line(s, r2.0) matches Ok(r3) && spec_visibility_line(s, r3.0) matches
            Ok(r4) && spec_parse_sky(s, r4.0) matches Ok(r5) && spec_parse_weather_desc(
            s,
            r5.0,
        ) matches Ok(r6) && spec_tag(s, r6.0, temperature_tag()) matches Ok(q) && q == p,
        spec_parse_temperature(s, p) == Err::<(int, Temperature), WeatherErrorView>(e),
    ensures
        spec_parse_weather(s) == Err::<(int, WeatherInfoView), WeatherErrorView>(e),
{
}

/// A malformed pressure field is fatal: when the report is well-formed up to
/// the pressure line and the pressure parser rejects, the whole document
/// parse returns exactly that error — no partial record.
pub proof fn lemma_pressure_error_is_fatal(s: Seq<char>, p: int, e: WeatherErrorView)
    requires
        spec_station_line(s, 0) matches Ok(r1) && spec_time_line(s, r1.0) matches Ok(r2)
            && spec_wind_line(s, r2.0) matches Ok(r3) && spec_visibility_line(s, r3.0) matches
            Ok(r4) && spec_parse_sky(s, r4.0) matches Ok(r5) && spec_parse_weather_desc(
            s,
            r5.0,
        ) matches Ok(r6) && spec_temperature_line(s, r6.0, temperature_tag()) matches Ok(r7)
            && spec_temperature_line(s, r7.0, crate::grammar::dew_point_tag()) matches Ok(r8)
            && spec_humidity_line(s, r8.0) matches Ok(r9) && r9.0 == p,
        spec_parse_pressure(s, p) == Err::<(int, i16), WeatherErrorView>(e),
    ensures
        spec_parse_weather(s) == Err::<(int, WeatherInfoView), WeatherErrorView>(e),
{
}

// What follows proves that a trailer appended to a parsed report is inert.
// Each field parser's scans settle strictly inside the report (or exactly at
// its end, where a leading line break in the trailer stops them at the same
// place), so parsing the extended input retraces the same steps.

/// The station field parser reads the same header from the extended input.
pub proof fn lemma_station_extends(s: Seq<char>, t: Seq<char>, pos: int)
    requires
        0 <= pos <= s.len(),
        t.len() == 0 || t[0] == '\n',
    ensures
        spec_parse_station(s + t, pos) == spec_parse_station(s, pos),
        pos <= spec_parse_station(s, pos).0 <= s.len(),
{
    lemma_find_from(s, pos, '\n');
    lemma_find_from_extend(s, t, pos, '\n');
    let nl = find_from(s, pos, '\n');
    lemma_subrange_extend(s, t, pos, nl);
}

/// A line break consumed inside the report is still there after appending.
pub proof fn lemma_newline_extends(s: Seq<char>, t: Seq<char>, pos: int)
    requires
        spec_newline(s, pos) is Ok,
    ensures
        spec_newline(s + t, pos) == spec_newline(s, pos),
        spec_newline(s, pos) matches Ok(p) ==> 0 <= pos < p <= s.len(),
{
    assert((s + t)[pos] == s[pos]);
}

/// A tag consumed inside the report still matches after appending.
pub proof fn lemma_tag_extends(s: Seq<char>, t: Seq<char>, pos: int, tag: Seq<char>)
    requires
        spec_tag(s, pos, tag) is Ok,
    ensures
        spec_tag(s + t, pos, tag) == spec_tag(s, pos, tag),
        spec_tag(s, pos, tag) matches Ok(p) ==> pos <= p <= s.len(),
{
    lemma_match_at_extend(s, t, pos, tag);
}

/// The timestamp field parser reads the same values from the extended input.
pub proof fn lemma_time_extends(s: Seq<char>, t: Seq<char>, pos: int)
    requires
        0 <= pos <= s.len(),
        spec_parse_time(s, pos) is Ok,
        t.len() == 0 || t[0] == '\n',
    ensures
        spec_parse_time(s + t, pos) == spec_parse_time(s, pos),
        spec_parse_time(s, pos) matches Ok(r) ==> pos <= r.0 <= s.len(),
{
    lemma_find_from(s, pos, '/');
    lemma_find_from_extend(s, t, pos, '/');
    let sl = find_from(s, pos, '/');
    assert(sl < s.len());
    assert((s + t)[sl + 1] == s[sl + 1]);
    let ys = sl + 2;
    lemma_find_from(s, ys, '.');
    lemma_find_from_extend(s, t, ys, '.');
    let yd = find_from(s, ys, '.');
    lemma_subrange_extend(s, t, ys, yd);
    assert(yd < s.len());
    let ms = yd + 1;
    lemma_find_from(s, ms, '.');
    lemma_find_from_extend(s, t, ms, '.');
    let md = find_from(s, ms, '.');
    lemma_subrange_extend(s, t, ms, md);
    assert(md < s.len());
    let ds = md + 1;
    lemma_find_from(s, ds, ' ');
    lemma_find_from_extend(s, t, ds, ' ');
    let dd = find_from(s, ds, ' ');
    lemma_subrange_extend(s, t, ds, dd);
    assert(dd < s.len());
    let ts = dd + 1;
    lemma_find_from(s, ts, '\n');
    lemma_find_from_extend(s, t, ts, '\n');
    let te = find_from(s, ts, '\n');
    lemma_subrange_extend(s, t, ts, te);
}

/// The directional wind shape reads the same values from the extended input.
pub proof fn lemma_wind_directional_extends(s: Seq<char>, t: Seq<char>, pos: int)
    requires
        0 <= pos <= s.len(),
        spec_wind_directional(s, pos) is Some,
        t.len() == 0 || t[0] == '\n',
    ensures
        spec_wind_directional(s + t, pos) == spec_wind_directional(s, pos),
        spec_wind_directional(s, pos) matches Some(r) ==> pos <= r.0 <= s.len(),
{
    lemma_match_at_extend(s, t, pos, wind_dir_tag());
    let cs = pos + wind_dir_tag().len();
    lemma_find_space_from(s, cs);
    lemma_find_space_from_extend(s, t, cs);
    let ce = find_space_from(s, cs);
    lemma_skip_blanks_from(s, ce);
    lemma_skip_blanks_from_extend(s, t, ce);
    let bp = skip_blanks_from(s, ce);
    assert(bp < s.len());
    assert((s + t)[bp] == s[bp]);
    let azs = bp + 1;
    lemma_find_space_from(s, azs);
    lemma_find_space_from_extend(s, t, azs);
    let aze = find_space_from(s, azs);
    lemma_subrange_extend(s, t, azs, aze);
    lemma_match_at_extend(s, t, aze, wind_degrees_tag());
    let ms = aze + wind_degrees_tag().len();
    lemma_find_space_from(s, ms);
    lemma_find_space_from_extend(s, t, ms);
    let me = find_space_from(s, ms);
    lemma_subrange_extend(s, t, ms, me);
    lemma_match_at_extend(s, t, me, wind_mph_tag());
    let ks = me + wind_mph_tag().len();
    lemma_find_space_from(s, ks);
    lemma_find_space_from_extend(s, t, ks);
    let ke = find_space_from(s, ks);
    lemma_subrange_extend(s, t, ks, ke);
    lemma_find_from(s, ke, '\n');
    lemma_find_from_extend(s, t, ke, '\n');
    lemma_subrange_extend(s, t, cs, ce);
}

/// The variable wind shape reads the same values from the extended input.
pub proof fn lemma_wind_variable_extends(s: Seq<char>, t: Seq<char>, pos: int)
    requires
        0 <= pos <= s.len(),
        spec_wind_variable(s, pos) is Some,
        t.len() == 0 || t[0] == '\n',
    ensures
        spec_wind_variable(s + t, pos) == spec_wind_variable(s, pos),
        spec_wind_variable(s, pos) matches Some(r) ==> pos <= r.0 <= s.len(),
{
    lemma_match_at_extend(s, t, pos, wind_var_tag());
    let ms = pos + wind_var_tag().len();
    lemma_find_space_from(s, ms);
    lemma_find_space_from_extend(s, t, ms);
    let me = find_space_from(s, ms);
    lemma_subrange_extend(s, t, ms, me);
    lemma_match_at_extend(s, t, me, wind_mph_tag());
    let ks = me + wind_mph_tag().len();
    lemma_find_space_from(s, ks);
    lemma_find_space_from_extend(s, t, ks);
    let ke = find_space_from(s, ks);
    lemma_subrange_extend(s, t, ks, ke);
    lemma_find_from(s, ke, '\n');
    lemma_find_from_extend(s, t, ke, '\n');
}

/// The wind parser takes the same alternative, with the same values, on the
/// extended input.
pub proof fn lemma_wind_extends(s: Seq<char>, t: Seq<char>, pos: int)
    requires
        0 <= pos <= s.len(),
        spec_parse_wind(s, pos) is Ok,
        t.len() == 0 || t[0] == '\n',
    ensures
        spec_parse_wind(s + t, pos) == spec_parse_wind(s, pos),
        spec_parse_wind(s, pos) matches Ok(r) ==> pos <= r.0 <= s.len(),
{
    reveal_strlit("Wind: Calm:0");
    reveal_strlit("Wind: from the ");
    reveal_strlit("Wind: Variable at ");
    if match_at(s, pos, wind_calm_tag()) {
        lemma_match_at_extend(s, t, pos, wind_calm_tag());
    } else if spec_wind_directional(s, pos) is Some {
        assert(match_at(s, pos, wind_dir_tag()));
        assert(s[pos + 6] == wind_dir_tag()[6]);
        assert(wind_dir_tag()[6] == 'f');
        assert(wind_calm_tag()[6] == 'C');
        lemma_match_at_neg_witness(s, t, pos, wind_calm_tag(), 6);
        lemma_wind_directional_extends(s, t, pos);
    } else {
        assert(spec_wind_variable(s, pos) is Some);
        assert(match_at(s, pos, wind_var_tag()));
        assert(s[pos + 6] == wind_var_tag()[6]);
        assert(wind_var_tag()[6] == 'V');
        assert(wind_calm_tag()[6] == 'C');
        assert(wind_dir_tag()[6] == 'f');
        lemma_match_at_neg_witness(s, t, pos, wind_calm_tag(), 6);
        lemma_match_at_neg_witness(s, t, pos, wind_dir_tag(), 6);
        assert(spec_wind_directional(s + t, pos) is None);
        lemma_wind_variable_extends(s, t, pos);
    }
}

/// An optional line whose tag is present reads the same value from the
/// extended input. (The absent case is settled by whichever tag the next
/// stage matched instead.)
pub proof fn lemma_opt_line_matched_extends(s: Seq<char>, t: Seq<char>, pos: int, tag: Seq<char>)
    requires
        match_at(s, pos, tag),
        spec_parse_opt_line(s, pos, tag) is Ok,
    ensures
        spec_parse_opt_line(s + t, pos, tag) == spec_parse_opt_line(s, pos, tag),
        spec_parse_opt_line(s, pos, tag) matches Ok(r) ==> pos <= r.0 <= s.len(),
{
    lemma_match_at_extend(s, t, pos, tag);
    let vs = pos + tag.len();
    lemma_find_from(s, vs, '\n');
    lemma_find_from_extend(s, t, vs, '\n');
    let ve = find_from(s, vs, '\n');
    assert(ve < s.len());
    lemma_subrange_extend(s, t, vs, ve);
}

/// A temperature value pair reads the same values from the extended input.
pub proof fn lemma_temperature_extends(s: Seq<char>, t: Seq<char>, pos: int)
    requires
        0 <= pos <= s.len(),
        spec_parse_temperature(s, pos) is Ok,
        t.len() == 0 || t[0] == '\n',
    ensures
        spec_parse_temperature(s + t, pos) == spec_parse_temperature(s, pos),
        spec_parse_temperature(s, pos) matches Ok(r) ==> pos <= r.0 <= s.len(),
{
    lemma_skip_blanks_from(s, pos);
    lemma_skip_blanks_from_extend(s, t, pos);
    let b = skip_blanks_from(s, pos);
    lemma_find_space_from(s, b);
    lemma_find_space_from_extend(s, t, b);
    let fe = find_space_from(s, b);
    lemma_subrange_extend(s, t, b, fe);
    lemma_match_at_extend(s, t, fe, crate::grammar::temp_infix_tag());
    let cs = fe + crate::grammar::temp_infix_tag().len();
    lemma_find_space_from(s, cs);
    lemma_find_space_from_extend(s, t, cs);
    let ce = find_space_from(s, cs);
    lemma_subrange_extend(s, t, cs, ce);
    lemma_find_from(s, ce, '\n');
    lemma_find_from_extend(s, t, ce, '\n');
}

/// The relative-humidity field reads the same value from the extended input.
pub proof fn lemma_humidity_extends(s: Seq<char>, t: Seq<char>, pos: int)
    requires
        0 <= pos <= s.len(),
        spec_parse_humidity(s, pos) is Ok,
        t.len() == 0 || t[0] == '\n',
    ensures
        spec_parse_humidity(s + t, pos) == spec_parse_humidity(s, pos),
        spec_parse_humidity(s, pos) matches Ok(r) ==> pos <= r.0 <= s.len(),
{
    lemma_match_at_extend(s, t, pos, crate::grammar::humidity_tag());
    let hs = pos + crate::grammar::humidity_tag().len();
    lemma_find_from(s, hs, '%');
    lemma_find_from_extend(s, t, hs, '%');
    let he = find_from(s, hs, '%');
    assert(he < s.len());
    lemma_subrange_extend(s, t, hs, he);
}

/// The pressure field reads the same value from the extended input.
pub proof fn lemma_pressure_extends(s: Seq<char>, t: Seq<char>, pos: int)
    requires
        0 <= pos <= s.len(),
        spec_parse_pressure(s, pos) is Ok,
        t.len() == 0 || t[0] == '\n',
    ensures
        spec_parse_pressure(s + t, pos) == spec_parse_pressure(s, pos),
        spec_parse_pressure(s, pos) matches Ok(r) ==> pos <= r.0 <= s.len(),
{
    lemma_match_at_extend(s, t, pos, pressure_tag());
    let ts = pos + pressure_tag().len();
    lemma_find_from(s, ts, '(');
    lemma_find_from_extend(s, t, ts, '(');
    let op = find_from(s, ts, '(');
    assert(op < s.len());
    let vs = op + 1;
    lemma_find_space_from(s, vs);
    lemma_find_space_from_extend(s, t, vs);
    let ve = find_space_from(s, vs);
    lemma_subrange_extend(s, t, vs, ve);
    lemma_find_from(s, ve, '\n');
    lemma_find_from_extend(s, t, ve, '\n');
}

/// Appending a trailer — empty, or beginning with a line break, as the coded
/// `ob:`/`cycle:` lines do — to a successfully parsed report is inert: the
/// extended input parses to the same record and the same end position, so the
/// trailer is left unconsumed and never inspected.
pub proof fn lemma_trailer_is_inert(s: Seq<char>, t: Seq<char>)
    requires
        spec_parse_weather(s) is Ok,
        t.len() == 0 || t[0] == '\n',
    ensures
        spec_parse_weather(s + t) == spec_parse_weather(s),
{
    let u = s + t;
    reveal_strlit("Sky conditions: ");
    reveal_strlit("Weather: ");
    reveal_strlit("Temperature:");
    lemma_station_extends(s, t, 0);
    match spec_station_line(s, 0) {
        Err(_) => {
            assert(false);
        },
        Ok(r1) => {
            let nl0 = spec_parse_station(s, 0).0;
            lemma_newline_extends(s, t, nl0);
            assert(spec_station_line(u, 0) == spec_station_line(s, 0));
            let p1 = r1.0;
            match spec_time_line(s, p1) {
                Err(_) => {
                    assert(false);
                },
                Ok(r2) => {
                    lemma_time_extends(s, t, p1);
                    match spec_parse_time(s, p1) {
                        Err(_) => {
                            assert(false);
                        },
                        Ok(rt) => {
                            lemma_newline_extends(s, t, rt.0);
                        },
                    }
                    assert(spec_time_line(u, p1) == spec_time_line(s, p1));
                    let p2 = r2.0;
                    match spec_wind_line(s, p2) {
                        Err(_) => {
                            assert(false);
                        },
                        Ok(r3) => {
                            lemma_wind_extends(s, t, p2);
                            match spec_parse_wind(s, p2) {
                                Err(_) => {
                                    assert(false);
                                },
                                Ok(rw) => {
                                    lemma_newline_extends(s, t, rw.0);
                                },
                            }
                            assert(spec_wind_line(u, p2) == spec_wind_line(s, p2));
                            let p3 = r3.0;
                            match spec_visibility_line(s, p3) {
                                Err(_) => {
                                    assert(false);
                                },
                                Ok(r4) => {
                                    lemma_tag_extends(s, t, p3, visibility_tag());
                                    let vs = p3 + visibility_tag().len();
                                    lemma_find_from(s, vs, '\n');
                                    lemma_find_from_extend(s, t, vs, '\n');
                                    let ve = find_from(s, vs, '\n');
                                    lemma_newline_extends(s, t, ve);
                                    lemma_subrange_extend(s, t, vs, ve);
                                    assert(spec_visibility_line(u, p3) == spec_visibility_line(
                                        s,
                                        p3,
                                    ));
                                    let p4 = r4.0;
                                    lemma_trailer_optional_onward(s, t, p4);
                                },
                            }
                        },
                    }
                },
            }
        },
    }
}

/// The tail of the trailer argument, from the optional lines on: given that
/// everything from `pos` on parses, the extended input parses the same way.
proof fn lemma_trailer_optional_onward(s: Seq<char>, t: Seq<char>, pos: int)
    requires
        0 <= pos <= s.len(),
        t.len() == 0 || t[0] == '\n',
        spec_parse_sky(s, pos) matches Ok(r5) && (spec_parse_weather_desc(s, r5.0) matches Ok(r6)
            && (spec_temperature_line(s, r6.0, temperature_tag()) matches Ok(r7) && (
        spec_temperature_line(s, r7.0, dew_point_tag()) matches Ok(r8) && (spec_humidity_line(
            s,
            r8.0,
        ) matches Ok(r9) && spec_parse_pressure(s, r9.0) is Ok)))),
    ensures
        spec_parse_sky(s + t, pos) == spec_parse_sky(s, pos),
        spec_parse_sky(s, pos) matches Ok(r5) && spec_parse_weather_desc(s + t, r5.0)
            == spec_parse_weather_desc(s, r5.0) && (spec_parse_weather_desc(s, r5.0) matches Ok(r6)
            && spec_temperature_line(s + t, r6.0, temperature_tag()) == spec_temperature_line(
            s,
            r6.0,
            temperature_tag(),
        ) && (spec_temperature_line(s, r6.0, temperature_tag()) matches Ok(r7)
            && spec_temperature_line(s + t, r7.0, dew_point_tag()) == spec_temperature_line(
            s,
            r7.0,
            dew_point_tag(),
        ) && (spec_temperature_line(s, r7.0, dew_point_tag()) matches Ok(r8) && spec_humidity_line(
            s + t,
            r8.0,
        ) == spec_humidity_line(s, r8.0) && (spec_humidity_line(s, r8.0) matches Ok(r9)
            && spec_parse_pressure(s + t, r9.0) == spec_parse_pressure(s, r9.0))))),
{
    let u = s + t;
    reveal_strlit("Sky conditions: ");
    reveal_strlit("Weather: ");
    reveal_strlit("Temperature:");
    match spec_parse_sky(s, pos) {
        Err(_) => {
            assert(false);
        },
        Ok(r5) => {
            let p5 = r5.0;
            match spec_parse_weather_desc(s, p5) {
                Err(_) => {
                    assert(false);
                },
                Ok(r6) => {
                    let p6 = r6.0;
                    match spec_temperature_line(s, p6, temperature_tag()) {
                        Err(_) => {
                            assert(false);
                        },
                        Ok(r7) => {
                            // Sky line: present, or refuted by the first
                            // character of whatever matched at `pos` instead.
                            if match_at(s, pos, sky_tag()) {
                                lemma_opt_line_matched_extends(s, t, pos, sky_tag());
                            } else {
                                assert(p5 == pos);
                                if match_at(s, pos, weather_tag()) {
                                    assert(s[pos] == weather_tag()[0]);
                                    lemma_match_at_neg_witness(s, t, pos, sky_tag(), 0);
                                } else {
                                    assert(p6 == pos);
                                    assert(match_at(s, pos, temperature_tag()));
                                    assert(s[pos] == temperature_tag()[0]);
                                    lemma_match_at_neg_witness(s, t, pos, sky_tag(), 0);
                                }
                                assert(spec_parse_sky(u, pos) == spec_parse_sky(s, pos));
                            }
                            // Weather line: same reasoning at `p5`.
                            if match_at(s, p5, weather_tag()) {
                                lemma_opt_line_matched_extends(s, t, p5, weather_tag());
                            } else {
                                assert(p6 == p5);
                                assert(match_at(s, p5, temperature_tag()));
                                assert(s[p5] == temperature_tag()[0]);
                                lemma_match_at_neg_witness(s, t, p5, weather_tag(), 0);
                                assert(spec_parse_weather_desc(u, p5) == spec_parse_weather_desc(
                                    s,
                                    p5,
                                ));
                            }
                            // Ambient temperature line.
                            lemma_tag_extends(s, t, p6, temperature_tag());
                            let q1 = p6 + temperature_tag().len();
                            lemma_temperature_extends(s, t, q1);
                            match spec_parse_temperature(s, q1) {
                                Err(_) => {
                                    assert(false);
                                },
                                Ok(ra) => {
                                    lemma_newline_extends(s, t, ra.0);
                                },
                            }
                            assert(spec_temperature_line(u, p6, temperature_tag())
                                == spec_temperature_line(s, p6, temperature_tag()));
                            let p7 = r7.0;
                            match spec_temperature_line(s, p7, dew_point_tag()) {
                                Err(_) => {
                                    assert(false);
                                },
                                Ok(r8) => {
                                    lemma_tag_extends(s, t, p7, dew_point_tag());
                                    let q2 = p7 + dew_point_tag().len();
                                    lemma_temperature_extends(s, t, q2);
                                    match spec_parse_temperature(s, q2) {
                                        Err(_) => {
                                            assert(false);
                                        },
                                        Ok(rb) => {
                                            lemma_newline_extends(s, t, rb.0);
                                        },
                                    }
                                    assert(spec_temperature_line(u, p7, dew_point_tag())
                                        == spec_temperature_line(s, p7, dew_point_tag()));
                                    let p8 = r8.0;
                                    match spec_humidity_line(s, p8) {
                                        Err(_) => {
                                            assert(false);
                                        },
                                        Ok(r9) => {
                                            lemma_humidity_extends(s, t, p8);
                                            match spec_parse_humidity(s, p8) {
                                                Err(_) => {
                                                    assert(false);
                                                },
                                                Ok(rc) => {
                                                    lemma_newline_extends(s, t, rc.0);
                                                },
                                            }
                                            assert(spec_humidity_line(u, p8)
                                                == spec_humidity_line(s, p8));
                                            let p9 = r9.0;
                                            lemma_pressure_extends(s, t, p9);
                                        },
                                    }
                                },
                            }
                        },
                    }
                },
            }
        },
    }
}

/// Every successfully returned record corresponds to a prefix of the input:
/// the returned position, where the unconsumed trailer starts, lies within
/// the input.
pub proof fn lemma_parse_weather_consumes_prefix(s: Seq<char>)
    requires
        spec_parse_weather(s) is Ok,
    ensures
        spec_parse_weather(s) matches Ok(r) ==> 0 <= r.0 <= s.len(),
{
    let t = Seq::<char>::empty();
    lemma_trailer_is_inert(s, t);
    lemma_station_extends(s, t, 0);
    match spec_station_line(s, 0) {
        Err(_) => {
            assert(false);
        },
        Ok(r1) => {
            lemma_newline_extends(s, t, spec_parse_station(s, 0).0);
            let p1 = r1.0;
            lemma_time_extends(s, t, p1);
            match spec_parse_time(s, p1) {
                Err(_) => {
                    assert(false);
                },
                Ok(rt) => {
                    lemma_newline_extends(s, t, rt.0);
                },
            }
            match spec_time_line(s, p1) {
                Err(_) => {
                    assert(false);
                },
                Ok(r2) => {
                    let p2 = r2.0;
                    lemma_wind_extends(s, t, p2);
                    match spec_parse_wind(s, p2) {
                        Err(_) => {
                            assert(false);
                        },
                        Ok(rw) => {
                            lemma_newline_extends(s, t, rw.0);
                        },
                    }
                    match spec_wind_line(s, p2) {
                        Err(_) => {
                            assert(false);
                        },
                        Ok(r3) => {
                            let p3 = r3.0;
                            lemma_tag_extends(s, t, p3, visibility_tag());
                            let vs = p3 + visibility_tag().len();
                            lemma_find_from(s, vs, '\n');
                            lemma_newline_extends(s, t, find_from(s, vs, '\n'));
                            match spec_visibility_line(s, p3) {
                                Err(_) => {
                                    assert(false);
                                },
                                Ok(r4) => {
                                    let p4 = r4.0;
                                    lemma_prefix_optional_onward(s, p4);
                                },
                            }
                        },
                    }
                },
            }
        },
    }
}

/// Bounds for the tail of the prefix argument, from the optional lines on.
proof fn lemma_prefix_optional_onward(s: Seq<char>, pos: int)
    requires
        0 <= pos <= s.len(),
        spec_parse_sky(s, pos) matches Ok(r5) && (spec_parse_weather_desc(s, r5.0) matches Ok(r6)
            && (spec_temperature_line(s, r6.0, temperature_tag()) matches Ok(r7) && (
        spec_temperature_line(s, r7.0, dew_point_tag()) matches Ok(r8) && (spec_humidity_line(
            s,
            r8.0,
        ) matches Ok(r9) && spec_parse_pressure(s, r9.0) is Ok)))),
    ensures
        spec_parse_sky(s, pos) matches Ok(r5) && pos <= r5.0 <= s.len() && (
        spec_parse_weather_desc(s, r5.0) matches Ok(r6) && r5.0 <= r6.0 <= s.len() && (
        spec_temperature_line(s, r6.0, temperature_tag()) matches Ok(r7) && r6.0 <= r7.0 <= s.len()
            && (spec_temperature_line(s, r7.0, dew_point_tag()) matches Ok(r8) && r7.0 <= r8.0
            <= s.len() && (spec_humidity_line(s, r8.0) matches Ok(r9) && r8.0 <= r9.0 <= s.len()
            && (spec_parse_pressure(s, r9.0) matches Ok(rp) && r9.0 <= rp.0 <= s.len()))))),
{
    let t = Seq::<char>::empty();
    match spec_parse_sky(s, pos) {
        Err(_) => {
            assert(false);
        },
        Ok(r5) => {
            if match_at(s, pos, sky_tag()) {
                lemma_opt_line_matched_extends(s, t, pos, sky_tag());
            }
            let p5 = r5.0;
            match spec_parse_weather_desc(s, p5) {
                Err(_) => {
                    assert(false);
                },
                Ok(r6) => {
                    if match_at(s, p5, weather_tag()) {
                        lemma_opt_line_matched_extends(s, t, p5, weather_tag());
                    }
                    let p6 = r6.0;
                    lemma_tag_extends(s, t, p6, temperature_tag());
                    let q1 = p6 + temperature_tag().len();
                    lemma_temperature_extends(s, t, q1);
                    match spec_parse_temperature(s, q1) {
                        Err(_) => {
                            assert(false);
                        },
                        Ok(ra) => {
                            lemma_newline_extends(s, t, ra.0);
                        },
                    }
                    match spec_temperature_line(s, p6, temperature_tag()) {
                        Err(_) => {
                            assert(false);
                        },
                        Ok(r7) => {
                            let p7 = r7.0;
                            lemma_tag_extends(s, t, p7, dew_point_tag());
                            let q2 = p7 + dew_point_tag().len();
                            lemma_temperature_extends(s, t, q2);
                            match spec_parse_temperature(s, q2) {
                                Err(_) => {
                                    assert(false);
                                },
                                Ok(rb) => {
                                    lemma_newline_extends(s, t, rb.0);
                                },
                            }
                            match spec_temperature_line(s, p7, dew_point_tag()) {
                                Err(_) => {
                                    assert(false);
                                },
                                Ok(r8) => {
                                    let p8 = r8.0;
                                    lemma_humidity_extends(s, t, p8);
                                    match spec_parse_humidity(s, p8) {
                                        Err(_) => {
                                            assert(false);
                                        },
                                        Ok(rc) => {
                                            lemma_newline_extends(s, t, rc.0);
                                        },
                                    }
                                    match spec_humidity_line(s, p8) {
                                        Err(_) => {
                                            assert(false);
                                        },
                                        Ok(r9) => {
                                            lemma_pressure_extends(s, t, r9.0);
                                        },
                                    }
                                },
                            }
                        },
                    }
                },
            }
        },
    }
}

/// A well-formed, fully consumed report followed by a trailer that begins
/// with a line break parses to the same record, and the trailer is returned
/// unconsumed, byte for byte.
pub proof fn lemma_trailer_is_returned(s: Seq<char>, t: Seq<char>)
    requires
        spec_parse_weather(s) matches Ok(r) && r.0 == s.len(),
        t.len() == 0 || t[0] == '\n',
    ensures
        spec_parse_weather(s + t) == spec_parse_weather(s),
        (s + t).subrange(s.len() as int, (s + t).len() as int) == t,
{
    lemma_trailer_is_inert(s, t);
    assert((s + t).subrange(s.len() as int, (s + t).len() as int) =~= t);
}

} // verus!
