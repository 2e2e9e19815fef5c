use dashboard_core::cache::{NewsCache, NewsRow, WeatherCache, WeatherRow};
use dashboard_core::news::Article;
use dashboard_core::geocode::{GeocodeError, Place};
use dashboard_core::refresh::{
    cached_news_status, cached_weather_status, degrade_status, show_cached, NewsBoard, Phase,
    WeatherBoard, WeatherStep,
};
use dashboard_core::thumbnail::Thumbnail;
use dashboard_core::weather::HourForecast;

fn weather_row(n: u8) -> WeatherRow {
    WeatherRow {
        time: format!("{:02}:00", n),
        temp: format!("{}°C", n),
        summary: "Clear".to_string(),
        real_feel: format!("Feels {}°C", n),
        precip: "0% precipitation".to_string(),
        icon_url: "clear.png".to_string(),
    }
}

fn weather_record(ts: i64) -> WeatherCache {
    WeatherCache {
        ts,
        units: "C".to_string(),
        city: "bucharest".to_string(),
        rows: vec![weather_row(1), weather_row(2)],
    }
}

fn news_row(n: u8) -> NewsRow {
    NewsRow {
        title: format!("Title {n}"),
        source: "example.com".to_string(),
        published: "2024-03-10 12:30".to_string(),
        url: format!("https://example.com/{n}"),
    }
}

fn placeholder() -> Thumbnail {
    Thumbnail { width: 1, height: 1, pixels: vec![7, 7, 7, 7] }
}

fn hour(label: &str) -> HourForecast {
    HourForecast {
        time: label.to_string(),
        temp: "3°F".to_string(),
        description: "Snow".to_string(),
        real_feel: "Feels 1°F".to_string(),
        precip: "80% precipitation".to_string(),
        icon_url: "snow.png".to_string(),
    }
}

#[test]
fn status_texts() {
    assert_eq!(cached_weather_status(true, 1_000 + 3 * 60, 1_000), "Cached (°C) • updated 3m ago");
    assert_eq!(cached_weather_status(false, 1_000, 1_000), "Cached (°F) • updated 0m ago");
    assert_eq!(cached_weather_status(true, 1_000, 5_000), "Cached (°C) • updated 0m ago");
    assert_eq!(cached_weather_status(true, 1_000 + 899, 1_000), "Cached (°C) • updated 14m ago");
    assert_eq!(cached_news_status(1_000 + 12 * 60 + 59, 1_000), "Cached • updated 12m ago");
    assert_eq!(
        degrade_status("Cached (°C) • updated 3m ago", "HTTP error: timeout"),
        "Offline • Cached (°C) • updated 3m ago"
    );
    assert_eq!(degrade_status("Cached", "e"), "Offline • Cached");
    assert_eq!(degrade_status("Loading…", "HTTP error: timeout"), "Failed to load: HTTP error: timeout");
    assert_eq!(degrade_status("", ""), "Failed to load: ");
    assert_eq!(degrade_status("cached", "e"), "Failed to load: e");
    assert_eq!(degrade_status("Offline • Cached", "e"), "Failed to load: e");
}

#[test]
fn fresh_matching_cache_then_network_failure() {
    let mut board = WeatherBoard::new();
    assert_eq!(board.phase, Phase::Idle);
    assert_eq!(board.status, "");
    assert!(board.rows.is_empty());
    board.trigger();
    assert_eq!(board.phase, Phase::CacheCheck);
    assert_eq!(board.status, "Loading…");
    let record = weather_record(10_000);
    assert!(board.cache_checked(Some(&record), 10_000 + 5 * 60, true, "Bucharest"));
    assert_eq!(board.phase, Phase::NetworkInFlight);
    assert_eq!(board.status, "Cached (°C) • updated 5m ago");
    assert_eq!(board.rows.len(), 2);
    board.failed("HTTP error: connection refused");
    assert_eq!(board.phase, Phase::Settled);
    assert!(board.status.starts_with("Offline • Cached"));
    assert_eq!(board.status, "Offline • Cached (°C) • updated 5m ago");
    assert_eq!(board.rows.len(), 2);
    for (shown, kept) in board.rows.iter().zip(record.rows.iter()) {
        assert_eq!(shown.time, kept.time);
        assert_eq!(shown.temp, kept.temp);
        assert_eq!(shown.summary, kept.summary);
        assert_eq!(shown.real_feel, kept.real_feel);
        assert_eq!(shown.precip, kept.precip);
        assert_eq!(shown.icon_url, kept.icon_url);
    }
}

#[test]
fn stale_or_mismatched_cache_is_not_shown() {
    let record = weather_record(10_000);
    for (now, celsius, city) in [
        (10_000 + 901, true, "bucharest"),
        (10_000 + 60, false, "bucharest"),
        (10_000 + 60, true, "cluj"),
        (i64::MAX, true, "bucharest"),
    ] {
        let mut board = WeatherBoard::new();
        board.trigger();
        assert!(!board.cache_checked(Some(&record), now, celsius, city));
        assert_eq!(board.phase, Phase::NetworkInFlight);
        assert_eq!(board.status, "Loading…");
        assert!(board.rows.is_empty());
        board.failed("boom");
        assert_eq!(board.status, "Failed to load: boom");
        assert!(board.rows.is_empty());
    }
    let mut board = WeatherBoard::new();
    board.trigger();
    assert!(!board.cache_checked(None, 0, true, "bucharest"));
    assert_eq!(board.status, "Loading…");
}

#[test]
fn cache_at_the_edge_of_the_ttl_is_shown() {
    let record = weather_record(10_000);
    let mut board = WeatherBoard::new();
    board.trigger();
    assert!(board.cache_checked(Some(&record), 10_000 + 900, true, "BUCHAREST"));
    assert_eq!(board.status, "Cached (°C) • updated 15m ago");
    let mut future = WeatherBoard::new();
    future.trigger();
    assert!(future.cache_checked(Some(&record), 9_000, true, "bucharest"));
    assert_eq!(future.status, "Cached (°C) • updated 0m ago");
}

#[test]
fn success_replaces_rows_under_a_clean_status() {
    let mut board = WeatherBoard::new();
    board.trigger();
    board.cache_checked(Some(&weather_record(10_000)), 10_060, true, "bucharest");
    board.place_resolved("Bucharest (Romania)");
    assert_eq!(board.status, "Cached (°C) • updated 1m ago");
    assert_eq!(board.phase, Phase::NetworkInFlight);
    assert_eq!(board.rows.len(), 2);
    board.fetched(&vec![hour("Now"), hour("13:00"), hour("14:00")], false);
    assert_eq!(board.phase, Phase::Settled);
    assert_eq!(board.status, "Updated (°F)");
    assert_eq!(board.rows.len(), 3);
    assert_eq!(board.rows[0].time, "Now");
    assert_eq!(board.rows[0].summary, "Snow");
    assert_eq!(board.rows[2].time, "14:00");
    board.failed("late failure of an older refresh");
    assert_eq!(board.status, "Failed to load: late failure of an older refresh");
    assert_eq!(board.rows.len(), 3);
}

#[test]
fn place_not_found_ends_the_refresh() {
    let mut board = WeatherBoard::new();
    board.trigger();
    board.cache_checked(None, 0, true, "Atlantis");
    board.place_not_found("Atlantis");
    assert_eq!(board.phase, Phase::Settled);
    assert_eq!(board.status, "City not found: Atlantis");
    assert!(board.rows.is_empty());
}

#[test]
fn failure_after_resolved_place_falls_back_to_the_cache() {
    let mut board = WeatherBoard::new();
    board.trigger();
    board.cache_checked(Some(&weather_record(10_000)), 10_060, true, "bucharest");
    board.place_resolved("Bucharest");
    board.failed("HTTP error: 500");
    assert_eq!(board.status, "Offline • Cached (°C) • updated 1m ago");
    assert_eq!(board.rows.len(), 2);
    assert_eq!(board.rows[1].time, "02:00");
}

#[test]
fn resolved_place_is_named_while_nothing_cached_is_shown() {
    let mut board = WeatherBoard::new();
    board.trigger();
    board.cache_checked(None, 0, true, "bucharest");
    board.place_resolved("Bucharest (Romania)");
    assert_eq!(board.status, "Loading… (Bucharest (Romania))");
    assert_eq!(board.phase, Phase::NetworkInFlight);
    board.failed("HTTP error: 500");
    assert_eq!(board.status, "Failed to load: HTTP error: 500");
    assert!(board.rows.is_empty());
}

#[test]
fn news_fallback_keeps_cached_articles() {
    let record = NewsCache { ts: 50_000, rows: vec![news_row(1), news_row(2), news_row(3)] };
    let mut board = NewsBoard::new();
    assert_eq!(board.phase, Phase::Idle);
    board.trigger();
    assert_eq!(board.status, "Loading…");
    assert!(board.cache_checked(Some(&record), 50_000 + 125, &placeholder()));
    assert_eq!(board.status, "Cached • updated 2m ago");
    assert_eq!(board.articles.len(), 3);
    board.failed("HTTP error: offline");
    assert_eq!(board.phase, Phase::Settled);
    assert!(board.status.starts_with("Offline • Cached"));
    assert_eq!(board.status, "Offline • Cached • updated 2m ago");
    assert_eq!(board.articles.len(), 3);
    for (shown, kept) in board.articles.iter().zip(record.rows.iter()) {
        assert_eq!(shown.title, kept.title);
        assert_eq!(shown.source, kept.source);
        assert_eq!(shown.published, kept.published);
        assert_eq!(shown.url, kept.url);
        assert_eq!(shown.thumbnail.pixels, vec![7, 7, 7, 7]);
    }
}

#[test]
fn news_success_and_stale_cache() {
    let record = NewsCache { ts: 50_000, rows: vec![news_row(1)] };
    let mut board = NewsBoard::new();
    board.trigger();
    assert!(!board.cache_checked(Some(&record), 50_901, &placeholder()));
    assert!(!board.cache_checked(None, 50_000, &placeholder()));
    assert_eq!(board.status, "Loading…");
    assert!(board.articles.is_empty());
    board.fetched(vec![Article {
        title: "Fresh".to_string(),
        source: "s".to_string(),
        published: "p".to_string(),
        url: "u".to_string(),
        thumbnail: placeholder(),
    }]);
    assert_eq!(board.phase, Phase::Settled);
    assert_eq!(board.status, "Updated");
    assert_eq!(board.articles.len(), 1);
    assert_eq!(board.articles[0].title, "Fresh");
    let shown = show_cached(&record.rows, &placeholder());
    assert_eq!(shown.len(), 1);
    assert_eq!(shown[0].url, "https://example.com/1");
    assert_eq!(shown[0].thumbnail.width, 1);
    let mut failed = NewsBoard::new();
    failed.trigger();
    failed.failed("JSON error: eof");
    assert_eq!(failed.status, "Failed to load: JSON error: eof");
    assert!(failed.articles.is_empty());
}

#[test]
fn resolved_place_goes_on_to_the_forecast() {
    let mut board = WeatherBoard::new();
    board.trigger();
    board.cache_checked(None, 0, true, "Paris");
    let place = Place {
        latitude: "48.85".to_string(),
        longitude: "2.35".to_string(),
        label: "Paris (France)".to_string(),
    };
    match board.place_outcome(Ok(place), "Paris") {
        WeatherStep::Forecast { latitude, longitude } => {
            assert_eq!(latitude, "48.85");
            assert_eq!(longitude, "2.35");
        }
        WeatherStep::Stop => panic!("a resolved place must go on to the forecast"),
    }
    assert_eq!(board.status, "Loading… (Paris (France))");
    assert_eq!(board.phase, Phase::NetworkInFlight);
}

#[test]
fn any_geocode_failure_stops_before_the_forecast() {
    for (failure, with_cache, without_cache) in [
        (GeocodeError::NotFound, "City not found: bucharest", "City not found: bucharest"),
        (
            GeocodeError::Http("timeout".to_string()),
            "Offline • Cached (°C) • updated 1m ago",
            "Failed to load: HTTP error: timeout",
        ),
        (
            GeocodeError::Json("eof".to_string()),
            "Offline • Cached (°C) • updated 1m ago",
            "Failed to load: JSON error: eof",
        ),
    ] {
        let again = match &failure {
            GeocodeError::NotFound => GeocodeError::NotFound,
            GeocodeError::Http(m) => GeocodeError::Http(m.clone()),
            GeocodeError::Json(m) => GeocodeError::Json(m.clone()),
        };
        let mut board = WeatherBoard::new();
        board.trigger();
        board.cache_checked(Some(&weather_record(10_000)), 10_060, true, "bucharest");
        assert!(matches!(board.place_outcome(Err(failure), "bucharest"), WeatherStep::Stop));
        assert_eq!(board.status, with_cache);
        assert_eq!(board.phase, Phase::Settled);
        assert_eq!(board.rows.len(), 2);
        let mut bare = WeatherBoard::new();
        bare.trigger();
        bare.cache_checked(None, 10_060, true, "bucharest");
        assert!(matches!(bare.place_outcome(Err(again), "bucharest"), WeatherStep::Stop));
        assert_eq!(bare.status, without_cache);
        assert_eq!(bare.phase, Phase::Settled);
        assert!(bare.rows.is_empty());
    }
}
