use dashboard_core::cache::{
    news_path_for, params_match, rows_of_forecast, units_text, user_cache_dir, weather_path_for,
    NewsCache, NewsRow, WeatherCache, WeatherRow,
};
use dashboard_core::store::{
    decode_weather, encode_news, encode_weather, read_news, read_weather, record_news,
    record_weather, write_news, write_weather,
};
use dashboard_core::json::{Json, Member};
use dashboard_core::weather::HourForecast;

fn weather_row(n: u8) -> WeatherRow {
    WeatherRow {
        time: if n == 0 { "Now".to_string() } else { format!("{:02}:00", n) },
        temp: format!("{}°C", 10 + n),
        summary: "Partly \"cloudy\" — ok\n".to_string(),
        real_feel: format!("Feels {}°C", 8 + n),
        precip: format!("{}% precipitation", n),
        icon_url: format!("icons/{n}.png"),
    }
}

fn news_row(n: u8) -> NewsRow {
    NewsRow {
        title: format!("Title {n} • ünïcode"),
        source: "example.com".to_string(),
        published: "2024-03-10 12:30".to_string(),
        url: format!("https://example.com/{n}?a=b&c=d"),
    }
}

fn same_weather_row(a: &WeatherRow, b: &WeatherRow) -> bool {
    a.time == b.time
        && a.temp == b.temp
        && a.summary == b.summary
        && a.real_feel == b.real_feel
        && a.precip == b.precip
        && a.icon_url == b.icon_url
}

#[test]
fn weather_record_round_trips_through_its_file() {
    let record = WeatherCache {
        ts: 1_710_072_000,
        units: "C".to_string(),
        city: "bucharest".to_string(),
        rows: vec![weather_row(0), weather_row(1), weather_row(2)],
    };
    let text = write_weather(&record);
    let back = read_weather(Some(&text)).unwrap();
    assert_eq!(back.ts, record.ts);
    assert_eq!(back.units, record.units);
    assert_eq!(back.city, record.city);
    assert_eq!(back.rows.len(), 3);
    for (a, b) in back.rows.iter().zip(record.rows.iter()) {
        assert!(same_weather_row(a, b));
    }
}

#[test]
fn round_trip_at_the_ends_of_the_range() {
    for ts in [i64::MIN, -1, 0, i64::MAX] {
        let record =
            WeatherCache { ts, units: String::new(), city: String::new(), rows: Vec::new() };
        let back = read_weather(Some(&write_weather(&record))).unwrap();
        assert_eq!(back.ts, ts);
        assert_eq!(back.units, "");
        assert_eq!(back.city, "");
        assert!(back.rows.is_empty());
        let news = NewsCache { ts, rows: Vec::new() };
        let back = read_news(Some(&write_news(&news))).unwrap();
        assert_eq!(back.ts, ts);
        assert!(back.rows.is_empty());
    }
}

#[test]
fn news_record_round_trips_through_its_file() {
    let record = NewsCache { ts: 42, rows: vec![news_row(1), news_row(2)] };
    let text = write_news(&record);
    let back = read_news(Some(&text)).unwrap();
    assert_eq!(back.ts, 42);
    assert_eq!(back.rows.len(), 2);
    for (a, b) in back.rows.iter().zip(record.rows.iter()) {
        assert_eq!(a.title, b.title);
        assert_eq!(a.source, b.source);
        assert_eq!(a.published, b.published);
        assert_eq!(a.url, b.url);
    }
}

#[test]
fn written_file_is_a_json_object_of_the_record() {
    let record = WeatherCache {
        ts: 7,
        units: "F".to_string(),
        city: "cluj".to_string(),
        rows: vec![weather_row(0)],
    };
    let text = write_weather(&record);
    let value: serde_json::Value = serde_json::from_str(&text).unwrap();
    assert_eq!(value["ts"], serde_json::Value::from(7));
    assert_eq!(value["units"], serde_json::Value::from("F"));
    assert_eq!(value["city"], serde_json::Value::from("cluj"));
    assert_eq!(value["rows"][0]["time"], serde_json::Value::from("Now"));
    assert_eq!(value["rows"][0]["temp"], serde_json::Value::from("10°C"));
    assert_eq!(value["rows"].as_array().unwrap().len(), 1);
    assert_eq!(value.as_object().unwrap().len(), 4);
    assert!(text.contains('\n'));
}

#[test]
fn encoded_document_has_the_members_in_order() {
    let record = WeatherCache {
        ts: 7,
        units: "F".to_string(),
        city: "cluj".to_string(),
        rows: vec![weather_row(3)],
    };
    match encode_weather(&record) {
        Json::Object(ms) => {
            let keys: Vec<&str> = ms.iter().map(|m| m.key.as_str()).collect();
            assert_eq!(keys, vec!["ts", "units", "city", "rows"]);
            assert!(matches!(ms[0].value, Json::Number(Some(7))));
            match &ms[3].value {
                Json::List(items) => match &items[0] {
                    Json::Object(row) => {
                        let keys: Vec<&str> = row.iter().map(|m| m.key.as_str()).collect();
                        assert_eq!(
                            keys,
                            vec!["time", "temp", "summary", "real_feel", "precip", "icon_url"]
                        );
                        assert!(matches!(&row[0].value, Json::Text(t) if t == "03:00"));
                    }
                    _ => panic!("row is no object"),
                },
                _ => panic!("rows is no list"),
            }
        }
        _ => panic!("record is no object"),
    }
    match encode_news(&NewsCache { ts: 1, rows: vec![news_row(1)] }) {
        Json::Object(ms) => {
            let keys: Vec<&str> = ms.iter().map(|m| m.key.as_str()).collect();
            assert_eq!(keys, vec!["ts", "rows"]);
        }
        _ => panic!("record is no object"),
    }
}

#[test]
fn missing_optional_members_default() {
    let text = r#"{"ts": 5, "rows": [{"time": "Now", "temp": "1°C", "summary": "Fog"}], "later": [1, 2.5, null]}"#;
    let record = read_weather(Some(text)).unwrap();
    assert_eq!(record.ts, 5);
    assert_eq!(record.units, "");
    assert_eq!(record.city, "");
    assert_eq!(record.rows.len(), 1);
    assert_eq!(record.rows[0].summary, "Fog");
    assert_eq!(record.rows[0].real_feel, "");
    assert_eq!(record.rows[0].precip, "");
    assert_eq!(record.rows[0].icon_url, "");
}

#[test]
fn missing_or_corrupt_file_reads_as_no_record() {
    assert!(read_weather(None).is_none());
    assert!(read_news(None).is_none());
    for text in [
        "",
        "not json",
        "[]",
        "null",
        r#"{"rows": []}"#,
        r#"{"ts": 1}"#,
        r#"{"ts": "1", "rows": []}"#,
        r#"{"ts": 1.5, "rows": []}"#,
        r#"{"ts": 18446744073709551615, "rows": []}"#,
        r#"{"ts": 1, "rows": {}}"#,
        r#"{"ts": 1, "rows": [1]}"#,
        r#"{"ts": 1, "units": 3, "rows": []}"#,
        r#"{"ts": 1, "city": null, "rows": []}"#,
        r#"{"ts": 1, "rows": [{"time": "Now", "temp": "1"}]}"#,
        r#"{"ts": 1, "rows": [{"time": "Now", "temp": "1", "summary": "s", "precip": 4}]}"#,
        r#"{"ts": 1, "rows": []"#,
    ] {
        assert!(read_weather(Some(text)).is_none());
    }
    for text in [
        "{",
        r#"{"ts": 1}"#,
        r#"{"ts": 1, "rows": [{"title": "t", "source": "s", "published": "p"}]}"#,
        r#"{"ts": 1, "rows": [{"title": "t", "source": "s", "published": "p", "url": 1}]}"#,
    ] {
        assert!(read_news(Some(text)).is_none());
    }
    assert!(read_news(Some(r#"{"ts": 1, "rows": [], "units": 3}"#)).is_some());
}

#[test]
fn document_that_is_no_object_is_no_record() {
    assert!(decode_weather(&Json::Null).is_none());
    assert!(decode_weather(&Json::List(Vec::new())).is_none());
    let minimal = Json::Object(vec![
        Member { key: "rows".to_string(), value: Json::List(Vec::new()) },
        Member { key: "ts".to_string(), value: Json::Number(Some(3)) },
        Member { key: "ts".to_string(), value: Json::Number(Some(4)) },
    ]);
    assert_eq!(decode_weather(&minimal).unwrap().ts, 3);
    let valueless = Json::Object(vec![
        Member { key: "rows".to_string(), value: Json::List(Vec::new()) },
        Member { key: "ts".to_string(), value: Json::Number(None) },
    ]);
    assert!(decode_weather(&valueless).is_none());
}

#[test]
fn unit_mismatch_never_matches() {
    let record = WeatherCache::new(Vec::new(), true, "bucharest", 100);
    assert_eq!(record.units, "C");
    assert_eq!(record.city, "bucharest");
    assert!(record.matches(true, "bucharest"));
    assert!(!record.matches(false, "bucharest"));
    assert!(!record.matches(true, "cluj"));
    assert!(!record.matches(false, "cluj"));
}

#[test]
fn city_matches_whatever_the_case() {
    let record = WeatherCache::new(Vec::new(), false, "BucHarest", 100);
    assert_eq!(record.units, "F");
    assert_eq!(record.city, "bucharest");
    assert!(record.matches(false, "Bucharest"));
    assert!(record.matches(false, "BUCHAREST"));
    assert!(record.matches(false, "bucharest"));
    assert!(!record.matches(false, "bucharest "));
    let unicode = WeatherCache::new(Vec::new(), true, "IAȘI", 100);
    assert_eq!(unicode.city, "iași");
    assert!(unicode.matches(true, "Iași"));
    let kept_upper = WeatherCache {
        ts: 1,
        units: "C".to_string(),
        city: "Bucharest".to_string(),
        rows: Vec::new(),
    };
    assert!(!kept_upper.matches(true, "bucharest"));
    assert!(!kept_upper.matches(true, "Bucharest"));
}

#[test]
fn record_of_a_fetch_answers_its_own_request() {
    for city in ["Bucharest", "IAȘI", "cluj-napoca", "São Paulo", ""] {
        for celsius in [true, false] {
            let record = WeatherCache::new(Vec::new(), celsius, city, 100);
            assert!(record.matches(celsius, city));
            assert!(!record.matches(!celsius, city));
        }
    }
}

#[test]
fn parameters_match_only_when_both_are_equal() {
    assert!(params_match("C", "bucharest", "C", "bucharest"));
    assert!(!params_match("C", "bucharest", "F", "bucharest"));
    assert!(!params_match("C", "bucharest", "C", "cluj"));
    assert!(!params_match("C", "bucharest", "F", "cluj"));
    assert!(!params_match("C", "bucharest", "c", "bucharest"));
    assert_eq!(units_text(true), "C");
    assert_eq!(units_text(false), "F");
}

#[test]
fn paths_are_derived_from_the_user() {
    assert_eq!(user_cache_dir("ana"), "cache/users/ana");
    assert_eq!(weather_path_for("ana"), "cache/users/ana/weather.json");
    assert_eq!(news_path_for("ana"), "cache/users/ana/news.json");
    assert_eq!(weather_path_for("guest"), "cache/users/guest/weather.json");
    assert_ne!(weather_path_for("ana"), weather_path_for("bob"));
    assert_ne!(weather_path_for("ana"), news_path_for("ana"));
}

#[test]
fn forecast_hours_become_rows() {
    let hours = vec![HourForecast {
        time: "Now".to_string(),
        temp: "5°C".to_string(),
        description: "Fog".to_string(),
        real_feel: "Feels 3°C".to_string(),
        precip: "10% precipitation".to_string(),
        icon_url: "fog.png".to_string(),
    }];
    let rows = rows_of_forecast(&hours);
    assert_eq!(rows.len(), 1);
    assert_eq!(rows[0].time, "Now");
    assert_eq!(rows[0].temp, "5°C");
    assert_eq!(rows[0].summary, "Fog");
    assert_eq!(rows[0].real_feel, "Feels 3°C");
    assert_eq!(rows[0].precip, "10% precipitation");
    assert_eq!(rows[0].icon_url, "fog.png");
    let copy = rows[0].duplicate();
    assert!(same_weather_row(&copy, &rows[0]));
}

#[test]
fn records_of_a_fetch_are_stamped_by_the_clock() {
    let w = record_weather(vec![weather_row(1)], false, "Cluj-Napoca");
    assert_eq!(w.units, "F");
    assert_eq!(w.city, "cluj-napoca");
    assert_eq!(w.rows.len(), 1);
    assert!(w.ts > 1_600_000_000);
    let n = record_news(vec![news_row(1), news_row(2)]);
    assert_eq!(n.rows.len(), 2);
    assert_eq!(n.rows[1].title, news_row(2).title);
    assert!(n.ts > 1_600_000_000);
}
