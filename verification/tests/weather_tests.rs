use weathernoaa::weather::Decimal;
use weathernoaa::weather::Station;
use weathernoaa::weather::Temperature;
use weathernoaa::weather::WeatherInfo;
use weathernoaa::weather::WeatherTime;
use weathernoaa::weather::WindInfo;
use weathernoaa::weather::parse_pressure;
use weathernoaa::weather::parse_station;
use weathernoaa::weather::parse_temperature;
use weathernoaa::weather::parse_time;
use weathernoaa::weather::parse_weather;
use weathernoaa::weather::parse_weather_str;
use weathernoaa::weather::parse_windinfo;

fn dec(w: u32) -> Decimal {
    Decimal::from_whole(w)
}

#[test]
fn test_station() {
    assert_eq!(parse_station("Station name not available"), ("", None));
    let station = Station {
        place: "Qingdao".to_string(),
        country: "China".to_string(),
    };
    assert_eq!(
        parse_station("Qingdao, China (ZSQD) 36-04N 120-20E 77M\n"),
        ("\n", Some(station))
    );
}

#[test]
fn weather_test_station() {
    assert_eq!(parse_station("Station name not available"), ("", None));
    let station = Station {
        place: "Qingdao".to_string(),
        country: "China".to_string(),
    };
    assert_eq!(
        parse_station("Qingdao, China (ZSQD) 36-04N 120-20E 77M\n"),
        ("\n", Some(station))
    );
}

#[test]
fn test_time() {
    let wtime = WeatherTime {
        year: 2021,
        month: 3,
        day: 28,
        time: "0800 UTC".into(),
    };
    assert_eq!(
        parse_time("Mar 28, 2021 - 04:00 AM EDT / 2021.03.28 0800 UTC"),
        Ok(("", wtime))
    );
}

#[test]
fn weather_test_time() {
    let wtime = WeatherTime {
        year: 2021,
        month: 3,
        day: 28,
        time: "0800 UTC".into(),
    };
    assert_eq!(
        parse_time("Mar 28, 2021 - 04:00 AM EDT / 2021.03.28 0800 UTC"),
        Ok(("", wtime))
    );
}

#[test]
fn test_wind_info() {
    let winfo = WindInfo {
        cardinal: "".into(),
        azimuth: 0,
        mph: dec(0),
        knots: dec(0),
    };
    assert_eq!(parse_windinfo("Wind: Calm:0"), Ok(("", winfo.clone())));
    assert!(parse_windinfo("Wind: unexpected").is_err());

    let china_info = WindInfo {
        cardinal: "NNW".into(),
        azimuth: 340,
        mph: dec(16),
        knots: dec(14),
    };

    assert_eq!(
        parse_windinfo("Wind: from the NNW (340 degrees) at 16 MPH (14 KT):0"),
        Ok(("", china_info))
    )
}

#[test]
fn weather_test_wind_info() {
    let winfo = WindInfo::default();
    assert_eq!(parse_windinfo("Wind: Calm:0"), Ok(("", winfo.clone())));
    assert!(parse_windinfo("Wind: unexpected").is_err());

    let china_info = WindInfo {
        cardinal: "NNW".into(),
        azimuth: 340,
        mph: dec(16),
        knots: dec(14),
    };

    assert_eq!(
        parse_windinfo("Wind: from the NNW (340 degrees) at 16 MPH (14 KT):0"),
        Ok(("", china_info))
    )
}

#[test]
fn test_temperature() {
    let temp = Temperature {
        fahrenheit: dec(78),
        celsius: dec(26),
    };
    assert_eq!(parse_temperature(" 78 F (26 C)"), Ok(("", temp)));

    let temp = Temperature {
        fahrenheit: dec(66),
        celsius: dec(19),
    };

    assert_eq!(parse_temperature(" 66 F (19 C)"), Ok(("", temp)));
}

#[test]
fn weather_test_temperature() {
    let temp = Temperature {
        fahrenheit: dec(78),
        celsius: dec(26),
    };
    assert_eq!(parse_temperature(" 78 F (26 C)"), Ok(("", temp)));

    let temp = Temperature {
        fahrenheit: dec(66),
        celsius: dec(19),
    };

    assert_eq!(parse_temperature(" 66 F (19 C)"), Ok(("", temp)));
}

#[test]
fn test_pressure() {
    assert_eq!(
        parse_pressure("Pressure (altimeter): 29.62 in. Hg (1003 hPa)"),
        Ok(("", 1003))
    );
}

#[test]
fn weather_test_pressure() {
    assert_eq!(
        parse_pressure("Pressure (altimeter): 29.62 in. Hg (1003 hPa)"),
        Ok(("", 1003))
    );
}

#[test]
fn test_weather_str() {
    assert_eq!(
        parse_weather_str("Weather: light drizzle; partial fog\n"),
        Ok(("", Some("light drizzle; partial fog".into())))
    );

    assert_eq!(parse_weather_str(""), Ok(("", None)));

    assert_eq!(
        parse_weather_str("non_existent"),
        Ok(("non_existent", None))
    );
}

#[test]
fn weather_test_weather_str() {
    assert_eq!(
        parse_weather_str("Weather: light drizzle; partial fog\n"),
        Ok(("", Some("light drizzle; partial fog".into())))
    );
}

#[test]
fn test_kykm_weather() {
    let weather = r#"YAKIMA AIR TERMINAL, WA, United States (KYKM) 46-34N 120-32W 324M
Dec 30, 2023 - 10:53 PM EST / 2023.12.31 0353 UTC
Wind: Calm:0
Visibility: 5 mile(s):0
Sky conditions: overcast
Weather: mist
Temperature: 42.1 F (5.6 C)
Dew Point: 39.0 F (3.9 C)
Relative Humidity: 88%
Pressure (altimeter): 30.05 in. Hg (1017 hPa)
ob: KYKM 310353Z AUTO 00000KT 5SM BR OVC025 06/04 A3005 RMK AO2 SLP185 T00560039
cycle: 4"#;
    parse_weather(weather).unwrap();
}

#[test]
fn test_vogo_weather() {
    let weather = r#"Station name not available
Dec 30, 2023 - 07:30 AM EST / 2023.12.30 1230 UTC
Wind: from the NNW (340 degrees) at 7 MPH (6 KT):0
Visibility: 3 mile(s):0
Temperature: 84 F (29 C)
Dew Point: 71 F (22 C)
Relative Humidity: 65%
Pressure (altimeter): 29.83 in. Hg (1010 hPa)
ob: VOGO 301230Z 34006KT 6000 NSC 29/22 Q1010 NOSIG
cycle: 12"#;
    parse_weather(weather).unwrap();
}

#[test]
fn test_vobl_weather() {
    let weather = "Station name not available
May 16, 2021 - 06:30 AM EDT / 2021.05.16 1030 UTC
Wind: from the SSW (200 degrees) at 12 MPH (10 KT) (direction variable):0
Visibility: 4 mile(s):0
Sky conditions: partly cloudy
Temperature: 80 F (27 C)
Dew Point: 66 F (19 C)
Relative Humidity: 61%
Pressure (altimeter): 29.80 in. Hg (1009 hPa)
extra";
    let winfo = WeatherInfo {
        station: None,
        weather_time: WeatherTime {
            year: 2021,
            month: 5,
            day: 16,
            time: "1030 UTC".into(),
        },
        wind: WindInfo {
            cardinal: "SSW".into(),
            azimuth: 200,
            mph: dec(12),
            knots: dec(10),
        },
        visibility: "4 mile(s):0".into(),
        sky_condition: Some("partly cloudy".to_owned()),
        weather: None,
        temperature: Temperature {
            fahrenheit: dec(80),
            celsius: dec(27),
        },
        dewpoint: Temperature {
            fahrenheit: dec(66),
            celsius: dec(19),
        },
        relative_humidity: 61,
        pressure: 1009,
    };

    assert_eq!(parse_weather(weather), Ok(("\nextra", winfo)));
}

#[test]
fn weather_test_vobl_weather() {
    let weather = "Station name not available
May 16, 2021 - 06:30 AM EDT / 2021.05.16 1030 UTC
Wind: from the SSW (200 degrees) at 12 MPH (10 KT) (direction variable):0
Visibility: 4 mile(s):0
Sky conditions: partly cloudy
Temperature: 80 F (27 C)
Dew Point: 66 F (19 C)
Relative Humidity: 61%
Pressure (altimeter): 29.80 in. Hg (1009 hPa)
extra";
    let winfo = WeatherInfo {
        station: None,
        weather_time: WeatherTime {
            year: 2021,
            month: 5,
            day: 16,
            time: "1030 UTC".into(),
        },
        wind: WindInfo {
            cardinal: "SSW".into(),
            azimuth: 200,
            mph: dec(12),
            knots: dec(10),
        },
        visibility: "4 mile(s):0".into(),
        sky_condition: Some("partly cloudy".to_owned()),
        weather: None,
        temperature: Temperature {
            fahrenheit: dec(80),
            celsius: dec(27),
        },
        dewpoint: Temperature {
            fahrenheit: dec(66),
            celsius: dec(19),
        },
        relative_humidity: 61,
        pressure: 1009,
    };

    assert_eq!(parse_weather(weather), Ok(("\nextra", winfo)));
}

#[test]
fn test_weather() {
    let weather = "Qingdao, China (ZSQD) 36-04N 120-20E 77M
Mar 28, 2021 - 04:00 AM EDT / 2021.03.28 0800 UTC
Wind: from the NNW (340 degrees) at 16 MPH (14 KT):0
Visibility: 1 mile(s):0
Sky conditions: overcast
Weather: widespread dust
Temperature: 64 F (18 C)
Dew Point: 42 F (6 C)
Relative Humidity: 45%
Pressure (altimeter): 29.65 in. Hg (1004 hPa)";
    let winfo = WeatherInfo {
        station: Some(Station {
            place: "Qingdao".into(),
            country: "China".into(),
        }),
        weather_time: WeatherTime {
            year: 2021,
            month: 3,
            day: 28,
            time: "0800 UTC".into(),
        },
        wind: WindInfo {
            cardinal: "NNW".into(),
            azimuth: 340,
            mph: dec(16),
            knots: dec(14),
        },
        visibility: "1 mile(s):0".into(),
        sky_condition: Some("overcast".to_owned()),
        weather: Some("widespread dust".into()),
        temperature: Temperature {
            fahrenheit: dec(64),
            celsius: dec(18),
        },
        dewpoint: Temperature {
            fahrenheit: dec(42),
            celsius: dec(6),
        },
        relative_humidity: 45,
        pressure: 1004,
    };

    assert_eq!(parse_weather(weather), Ok(("", winfo)));

    let weather2 = "Qingdao, China (ZSQD) 36-04N 120-20E 77M
Mar 28, 2021 - 04:00 AM EDT / 2021.03.28 0800 UTC
Wind: from the NNW (340 degrees) at 16 MPH (14 KT):0
Visibility: 1 mile(s):0
Sky conditions: overcast
Weather: widespread dust
Temperature: 64 F (18 C)
Dew Point: 42 F (6 C)
Relative Humidity: 45%
Pressure (altimeter): 29.65 in. Hg (1004 hPa)
extra";
    let winfo2 = WeatherInfo {
        station: Some(Station {
            place: "Qingdao".into(),
            country: "China".into(),
        }),
        weather_time: WeatherTime {
            year: 2021,
            month: 3,
            day: 28,
            time: "0800 UTC".into(),
        },
        wind: WindInfo {
            cardinal: "NNW".into(),
            azimuth: 340,
            mph: dec(16),
            knots: dec(14),
        },
        visibility: "1 mile(s):0".into(),
        sky_condition: Some("overcast".to_owned()),
        weather: Some("widespread dust".into()),
        temperature: Temperature {
            fahrenheit: dec(64),
            celsius: dec(18),
        },
        dewpoint: Temperature {
            fahrenheit: dec(42),
            celsius: dec(6),
        },
        relative_humidity: 45,
        pressure: 1004,
    };

    assert_eq!(parse_weather(weather2), Ok(("\nextra", winfo2)))
}

#[test]
fn weather_test_weather() {
    let weather = "Qingdao, China (ZSQD) 36-04N 120-20E 77M
Mar 28, 2021 - 04:00 AM EDT / 2021.03.28 0800 UTC
Wind: from the NNW (340 degrees) at 16 MPH (14 KT):0
Visibility: 1 mile(s):0
Sky conditions: overcast
Weather: widespread dust
Temperature: 64 F (18 C)
Dew Point: 42 F (6 C)
Relative Humidity: 45%
Pressure (altimeter): 29.65 in. Hg (1004 hPa)
extra";
    let winfo = WeatherInfo {
        station: Some(Station {
            place: "Qingdao".into(),
            country: "China".into(),
        }),
        weather_time: WeatherTime {
            year: 2021,
            month: 3,
            day: 28,
            time: "0800 UTC".into(),
        },
        wind: WindInfo {
            cardinal: "NNW".into(),
            azimuth: 340,
            mph: dec(16),
            knots: dec(14),
        },
        visibility: "1 mile(s):0".into(),
        sky_condition: Some("overcast".to_owned()),
        weather: Some("widespread dust".into()),
        temperature: Temperature {
            fahrenheit: dec(64),
            celsius: dec(18),
        },
        dewpoint: Temperature {
            fahrenheit: dec(42),
            celsius: dec(6),
        },
        relative_humidity: 45,
        pressure: 1004,
    };

    assert_eq!(parse_weather(weather), Ok(("\nextra", winfo)));
}
