use weathernoaa::weather::Decimal;
use weathernoaa::weather::Station;
use weathernoaa::weather::Temperature;
use weathernoaa::weather::WeatherError;
use weathernoaa::weather::WindInfo;
use weathernoaa::weather::parse_pressure;
use weathernoaa::weather::parse_relative_humidity;
use weathernoaa::weather::parse_sky_condition;
use weathernoaa::weather::parse_station;
use weathernoaa::weather::parse_temperature;
use weathernoaa::weather::parse_time;
use weathernoaa::weather::parse_weather;
use weathernoaa::weather::parse_windinfo;

fn dec(w: u32) -> Decimal {
    Decimal::from_whole(w)
}

#[test]
fn sentinel_station_ignores_case() {
    assert_eq!(
        parse_station("STATION NAME NOT AVAILABLE\nrest"),
        ("\nrest", None)
    );
}

#[test]
fn station_without_comma_is_none() {
    assert_eq!(parse_station("Oneword header\nrest"), ("\nrest", None));
}

#[test]
fn station_splits_at_first_comma() {
    let station = Station {
        place: "YAKIMA AIR TERMINAL".to_string(),
        country: "WA, United States".to_string(),
    };
    assert_eq!(
        parse_station("YAKIMA AIR TERMINAL, WA, United States (KYKM) 46-34N 120-32W 324M\n"),
        ("\n", Some(station))
    );
}

#[test]
fn calm_wind_has_default_fields() {
    let (rest, wind) = parse_windinfo("Wind: Calm:0").unwrap();
    assert_eq!(rest, "");
    assert_eq!(wind.cardinal, "");
    assert_eq!(wind.azimuth, 0);
    assert_eq!(wind.mph, dec(0));
    assert_eq!(wind.knots, dec(0));
    assert_eq!(wind, WindInfo::default());
}

#[test]
fn directional_wind_values() {
    let (rest, wind) = parse_windinfo("Wind: from the NNW (340 degrees) at 16 MPH (14 KT):0")
        .unwrap();
    assert_eq!(rest, "");
    assert_eq!(wind.cardinal, "NNW");
    assert_eq!(wind.azimuth, 340);
    assert_eq!(wind.mph, dec(16));
    assert_eq!(wind.knots, dec(14));
}

#[test]
fn variable_wind_keeps_direction_defaults() {
    let (rest, wind) = parse_windinfo("Wind: Variable at 7 MPH (6 KT):0").unwrap();
    assert_eq!(rest, "");
    assert_eq!(wind.cardinal, "");
    assert_eq!(wind.azimuth, 0);
    assert_eq!(wind.mph, dec(7));
    assert_eq!(wind.knots, dec(6));
}

#[test]
fn pressure_reads_hectopascals() {
    assert_eq!(
        parse_pressure("Pressure (altimeter): 29.65 in. Hg (1004 hPa)"),
        Ok(("", 1004))
    );
}

#[test]
fn humidity_reads_percentage() {
    assert_eq!(parse_relative_humidity("Relative Humidity: 61%"), Ok(("", 61)));
    assert!(matches!(
        parse_relative_humidity("Relative Humidity: six%"),
        Err(WeatherError::MalformedNumber(_))
    ));
}

#[test]
fn sky_condition_absent_leaves_input_unmoved() {
    assert_eq!(
        parse_sky_condition("Weather: mist\n"),
        Ok(("Weather: mist\n", None))
    );
    assert_eq!(
        parse_sky_condition("Sky conditions: overcast\nrest"),
        Ok(("rest", Some("overcast".to_string())))
    );
}

#[test]
fn report_without_sky_line_keeps_weather_line() {
    let weather = "Station name not available
May 16, 2021 - 06:30 AM EDT / 2021.05.16 1030 UTC
Wind: Calm:0
Visibility: 4 mile(s):0
Weather: mist
Temperature: 80 F (27 C)
Dew Point: 66 F (19 C)
Relative Humidity: 61%
Pressure (altimeter): 29.80 in. Hg (1009 hPa)";
    let (rest, info) = parse_weather(weather).unwrap();
    assert_eq!(rest, "");
    assert_eq!(info.sky_condition, None);
    assert_eq!(info.weather, Some("mist".to_string()));
}

#[test]
fn decimal_temperatures_keep_their_digits() {
    let temp = Temperature {
        fahrenheit: Decimal { neg: false, whole: 42, frac: 1, frac_digits: 1 },
        celsius: Decimal { neg: false, whole: 5, frac: 6, frac_digits: 1 },
    };
    assert_eq!(parse_temperature(" 42.1 F (5.6 C)"), Ok(("", temp)));
}

#[test]
fn negative_temperatures_parse() {
    let temp = Temperature {
        fahrenheit: Decimal { neg: true, whole: 3, frac: 0, frac_digits: 0 },
        celsius: Decimal { neg: true, whole: 19, frac: 0, frac_digits: 0 },
    };
    assert_eq!(parse_temperature(" -3 F (-19 C)"), Ok(("", temp)));
}

#[test]
fn malformed_timestamp_fails() {
    assert!(matches!(
        parse_time("no separator on this line"),
        Err(WeatherError::MalformedTimestamp(_))
    ));
    assert!(matches!(
        parse_time("May 16, 2021 - 06:30 AM EDT / 2021.xx.16 1030 UTC"),
        Err(WeatherError::MalformedTimestamp(_))
    ));
}

#[test]
fn malformed_pressure_number_fails_whole_parse() {
    assert!(matches!(
        parse_pressure("Pressure (altimeter): 29.65 in. Hg (10x4 hPa)"),
        Err(WeatherError::MalformedNumber(_))
    ));
    let weather = "Station name not available
May 16, 2021 - 06:30 AM EDT / 2021.05.16 1030 UTC
Wind: Calm:0
Visibility: 4 mile(s):0
Temperature: 80 F (27 C)
Dew Point: 66 F (19 C)
Relative Humidity: 61%
Pressure (altimeter): 29.80 in. Hg (10x9 hPa)";
    assert!(matches!(
        parse_weather(weather),
        Err(WeatherError::MalformedNumber(_))
    ));
}

#[test]
fn malformed_temperature_number_fails_whole_parse() {
    let weather = "Station name not available
May 16, 2021 - 06:30 AM EDT / 2021.05.16 1030 UTC
Wind: Calm:0
Visibility: 4 mile(s):0
Temperature: 8x F (27 C)
Dew Point: 66 F (19 C)
Relative Humidity: 61%
Pressure (altimeter): 29.80 in. Hg (1009 hPa)";
    assert!(matches!(
        parse_weather(weather),
        Err(WeatherError::MalformedNumber(_))
    ));
}

#[test]
fn unrecognized_wind_fails_whole_parse() {
    let weather = "Station name not available
May 16, 2021 - 06:30 AM EDT / 2021.05.16 1030 UTC
Wind: gusting wildly
Visibility: 4 mile(s):0
Temperature: 80 F (27 C)
Dew Point: 66 F (19 C)
Relative Humidity: 61%
Pressure (altimeter): 29.80 in. Hg (1009 hPa)";
    assert!(matches!(
        parse_weather(weather),
        Err(WeatherError::UnrecognizedWindFormat(_))
    ));
}

#[test]
fn missing_visibility_tag_fails() {
    let weather = "Station name not available
May 16, 2021 - 06:30 AM EDT / 2021.05.16 1030 UTC
Wind: Calm:0
Horizon: 4 mile(s):0
Temperature: 80 F (27 C)
Dew Point: 66 F (19 C)
Relative Humidity: 61%
Pressure (altimeter): 29.80 in. Hg (1009 hPa)";
    assert!(matches!(
        parse_weather(weather),
        Err(WeatherError::UnexpectedInput(_))
    ));
}

#[test]
fn trailer_is_returned_byte_for_byte() {
    let report = "Station name not available
May 16, 2021 - 06:30 AM EDT / 2021.05.16 1030 UTC
Wind: Calm:0
Visibility: 4 mile(s):0
Temperature: 80 F (27 C)
Dew Point: 66 F (19 C)
Relative Humidity: 61%
Pressure (altimeter): 29.80 in. Hg (1009 hPa)";
    let (rest, info) = parse_weather(report).unwrap();
    assert_eq!(rest, "");
    let trailer = "\nob: VOBL 161030Z 20010KT 4000 HZ\ncycle: 10";
    let extended = format!("{}{}", report, trailer);
    let (rest2, info2) = parse_weather(&extended).unwrap();
    assert_eq!(rest2, trailer);
    assert_eq!(info2, info);
}
