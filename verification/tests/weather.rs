use dashboard_core::weather::{
    first_upcoming, forecast_url, hour_of, hours_from, next_hours, next_hours_at,
    read_hour_stamps, unit_symbol, CodeEntry, CodeInfo, CodeTable, DayNight, Hourly, Stamp,
    WeatherFetchError,
};

fn info(description: &str, image: &str) -> CodeInfo {
    CodeInfo { description: description.to_string(), image: image.to_string() }
}

fn table() -> CodeTable {
    CodeTable {
        entries: vec![
            CodeEntry {
                code: "0".to_string(),
                meaning: DayNight { day: info("Sunny", "sun.png"), night: info("Clear", "moon.png") },
            },
            CodeEntry {
                code: "61".to_string(),
                meaning: DayNight { day: info("Rain", "rain.png"), night: info("Rain", "rain-n.png") },
            },
        ],
    }
}

fn day_of_hours() -> Hourly {
    let mut h = Hourly {
        time: Vec::new(),
        temperature: Vec::new(),
        real_feel: Vec::new(),
        p_probability: Vec::new(),
        weather_code: Vec::new(),
        is_day: Vec::new(),
    };
    for hour in 0..24u8 {
        h.time.push(format!("2024-03-10T{:02}:00", hour));
        h.temperature.push(format!("{}", 10 + hour as i32));
        h.real_feel.push(format!("{}", 8 + hour as i32));
        h.p_probability.push(hour * 4);
        h.weather_code.push(if hour == 6 { 61 } else if hour == 7 { 99 } else { 0 });
        h.is_day.push(if (6..20).contains(&hour) { 1 } else { 0 });
    }
    h
}

#[test]
fn window_of_eight_from_hour_five() {
    let h = day_of_hours();
    let stamps = read_hour_stamps(&h.time);
    let now = stamps[5].unwrap();
    let out = next_hours_at(&h, &table(), now, 8, true);
    assert_eq!(out.len(), 8);
    let labels: Vec<&str> = out.iter().map(|e| e.time.as_str()).collect();
    assert_eq!(labels, vec!["Now", "06:00", "07:00", "08:00", "09:00", "10:00", "11:00", "12:00"]);
    assert_eq!(out[0].temp, "15°C");
    assert_eq!(out[0].real_feel, "Feels 13°C");
    assert_eq!(out[0].precip, "20% precipitation");
    assert_eq!(out[0].description, "Clear");
    assert_eq!(out[0].icon_url, "moon.png");
    assert_eq!(out[1].description, "Rain");
    assert_eq!(out[1].icon_url, "rain.png");
    assert_eq!(out[7].temp, "22°C");
    assert_eq!(out[7].precip, "48% precipitation");
    assert_eq!(out[7].description, "Sunny");
}

#[test]
fn now_between_two_hours_starts_at_the_later() {
    let h = day_of_hours();
    let stamps = read_hour_stamps(&h.time);
    let five = stamps[5].unwrap();
    let now = Stamp { secs: five.secs - 1800, nanos: 1 };
    assert_eq!(first_upcoming(&stamps, now), 5);
    let just_after = Stamp { secs: five.secs, nanos: 1 };
    assert_eq!(first_upcoming(&stamps, just_after), 6);
    assert_eq!(first_upcoming(&stamps, five), 5);
}

#[test]
fn unmapped_code_is_a_dash_without_icon() {
    let h = day_of_hours();
    let out = hours_from(&h, &table(), 7, 1, false);
    assert_eq!(out.len(), 1);
    assert_eq!(out[0].time, "Now");
    assert_eq!(out[0].description, "—");
    assert_eq!(out[0].icon_url, "");
    assert_eq!(out[0].temp, "17°F");
    assert_eq!(out[0].real_feel, "Feels 15°F");
    let (d, i) = table().describe(200, true);
    assert_eq!(d, "—");
    assert_eq!(i, "");
}

#[test]
fn series_end_cuts_the_window_short() {
    let h = day_of_hours();
    let out = hours_from(&h, &table(), 20, 8, true);
    let labels: Vec<&str> = out.iter().map(|e| e.time.as_str()).collect();
    assert_eq!(labels, vec!["Now", "21:00", "22:00", "23:00"]);
    assert_eq!(hours_from(&h, &table(), 24, 8, true).len(), 0);
    assert_eq!(hours_from(&h, &table(), 3, 0, true).len(), 0);
    assert_eq!(hours_from(&h, &table(), 0, usize::MAX, true).len(), 24);
    assert_eq!(hours_from(&h, &table(), usize::MAX, usize::MAX, true).len(), 0);
}

#[test]
fn all_hours_passed_starts_at_hour_zero() {
    let h = day_of_hours();
    let stamps = read_hour_stamps(&h.time);
    let last = stamps[23].unwrap();
    let now = Stamp { secs: last.secs + 1, nanos: 0 };
    assert_eq!(first_upcoming(&stamps, now), 0);
    let out = next_hours_at(&h, &table(), now, 3, true);
    let labels: Vec<&str> = out.iter().map(|e| e.time.as_str()).collect();
    assert_eq!(labels, vec!["Now", "01:00", "02:00"]);
}

#[test]
fn unreadable_timestamps_are_passed_over() {
    let times = vec![
        "garbage".to_string(),
        "2024-03-10T25:00".to_string(),
        "2024-03-10T05:00".to_string(),
    ];
    let stamps = read_hour_stamps(&times);
    assert!(stamps[0].is_none());
    assert!(stamps[1].is_none());
    let five = stamps[2].unwrap();
    assert_eq!(first_upcoming(&stamps, Stamp { secs: five.secs - 10, nanos: 0 }), 2);
    assert_eq!(first_upcoming(&Vec::new(), five), 0);
}

#[test]
fn stamps_order_as_the_times_do() {
    let times = vec![
        "2024-03-10T05:00".to_string(),
        "2024-03-10T06:00".to_string(),
        "2025-01-01T00:00".to_string(),
    ];
    let stamps = read_hour_stamps(&times);
    let a = stamps[0].unwrap();
    let b = stamps[1].unwrap();
    let c = stamps[2].unwrap();
    assert_eq!(b.secs - a.secs, 3600);
    assert_eq!(a.nanos, 0);
    assert!(b.is_at_or_after(&a));
    assert!(c.is_at_or_after(&b));
    assert!(!a.is_at_or_after(&b));
    assert!(a.is_at_or_after(&a));
    assert!(Stamp { secs: 1, nanos: 5 }.is_at_or_after(&Stamp { secs: 1, nanos: 4 }));
    assert!(!Stamp { secs: 1, nanos: 3 }.is_at_or_after(&Stamp { secs: 1, nanos: 4 }));
}

#[test]
fn short_parallel_lists_read_as_zero() {
    let h = Hourly {
        time: vec!["2024-03-10T00:00".to_string(), "2024-03-10T01:00".to_string()],
        temperature: vec!["3".to_string()],
        real_feel: Vec::new(),
        p_probability: Vec::new(),
        weather_code: Vec::new(),
        is_day: Vec::new(),
    };
    let out = hours_from(&h, &table(), 0, 5, true);
    assert_eq!(out.len(), 2);
    assert_eq!(out[0].temp, "3°C");
    assert_eq!(out[1].temp, "0°C");
    assert_eq!(out[1].real_feel, "Feels 0°C");
    assert_eq!(out[1].precip, "0% precipitation");
    assert_eq!(out[1].description, "Clear");
    assert_eq!(out[1].time, "01:00");
}

#[test]
fn hour_labels() {
    assert_eq!(hour_of("2024-03-10T05:00"), "05:00");
    assert_eq!(hour_of("no separator"), "00:00");
    assert_eq!(hour_of("aTbTc"), "b");
    assert_eq!(hour_of("endsT"), "");
    assert_eq!(hour_of(""), "00:00");
}

#[test]
fn forecast_request_names_the_unit() {
    assert_eq!(
        forecast_url("44.43", "26.1", true),
        "https://api.open-meteo.com/v1/forecast?latitude=44.43&longitude=26.1&hourly=temperature_2m,apparent_temperature,precipitation_probability,weather_code,is_day&timezone=auto&forecast_days=1&temperature_unit=celsius"
    );
    assert!(forecast_url("1", "2", false).ends_with("&temperature_unit=fahrenheit"));
    assert_eq!(unit_symbol(true), "°C");
    assert_eq!(unit_symbol(false), "°F");
}

#[test]
fn next_hours_by_the_machine_clock() {
    let h = day_of_hours();
    let out = next_hours(&h, &table(), 8, true);
    assert!(out.len() >= 1 && out.len() <= 8);
    assert_eq!(out[0].time, "Now");
}

#[test]
fn weather_errors_in_words() {
    assert_eq!(WeatherFetchError::Http("503".to_string()).message(), "HTTP error: 503");
    assert_eq!(WeatherFetchError::Json("eof".to_string()).message(), "JSON error: eof");
    assert_eq!(WeatherFetchError::Io("gone".to_string()).message(), "IO error: gone");
}
