//! The refresh of one domain's panel: cached rows are shown at once when
//! they are fresh and answer the request, the network is tried in any case,
//! and a failure may only degrade the status line, never the rows on screen.
//!
//! A refresh is not cancelled when another is asked for before it has
//! landed. Both run to their end; every event is taken as it arrives, and
//! the one that arrives last decides what the panel shows.

use vstd::prelude::*;
use vstd::string::*;
use crate::cache::{
    duplicate_weather_rows,
    lemma_own_record_matches,
    weather_record_of,
    news_row_views,
    rows_of_forecast,
    row_of_forecast,
    weather_matches,
    weather_row_views,
    NewsCache,
    NewsCacheView,
    NewsRow,
    NewsRowView,
    WeatherCache,
    WeatherCacheView,
    WeatherRow,
    WeatherRowView,
};
use crate::freshness::{age_minutes_at, age_minutes_from, fresh_at, is_fresh_at, CACHE_TTL_SECS};
use crate::geocode::{geocode_error_text, GeocodeError, Place};
use crate::news::{article_views, Article, ArticleView};
use crate::text::{decimal, decimal_text, has_prefix, joined, lowercased, starts_with};
use crate::thumbnail::{Picture, Thumbnail};
use crate::weather::{unit_glyph, unit_symbol, HourForecast};

verus! {

/// Where a refresh stands.
#[derive(Clone, Copy, Debug, PartialEq, Eq, Structural)]
pub enum Phase {
    /// No refresh has been asked for.
    Idle,
    /// A refresh was asked for and the cache is being looked up.
    CacheCheck,
    /// The cache was looked up and the network fetch is under way.
    NetworkInFlight,
    /// The network fetch has ended, well or badly.
    Settled,
}

/// The status while a refresh is under way.
pub open spec fn loading_status() -> Seq<char> {
    "Loading…"@
}

/// The status while the forecast for a resolved place is under way.
pub open spec fn loading_place_status(label: Seq<char>) -> Seq<char> {
    "Loading… ("@ + label + ")"@
}

/// The status when the location search found no place.
pub open spec fn not_found_status(city: Seq<char>) -> Seq<char> {
    "City not found: "@ + city
}

/// The status over cached weather rows that are `minutes` old.
pub open spec fn weather_cached_status(use_celsius: bool, minutes: int) -> Seq<char> {
    "Cached ("@ + unit_glyph(use_celsius) + ") • updated "@ + decimal_text(minutes as nat)
        + "m ago"@
}

/// The status over cached news rows that are `minutes` old.
pub open spec fn news_cached_status(minutes: int) -> Seq<char> {
    "Cached • updated "@ + decimal_text(minutes as nat) + "m ago"@
}

/// The status over weather rows fresh from the network.
pub open spec fn weather_updated_status(use_celsius: bool) -> Seq<char> {
    "Updated ("@ + unit_glyph(use_celsius) + ")"@
}

/// The status over news rows fresh from the network.
pub open spec fn news_updated_status() -> Seq<char> {
    "Updated"@
}

/// The status after a failed fetch: a status that begins with `Cached` is
/// kept behind `Offline • `; any other gives way to the failure's wording.
pub open spec fn degraded_status(status: Seq<char>, error: Seq<char>) -> Seq<char> {
    if has_prefix(status, "Cached"@) {
        "Offline • "@ + status
    } else {
        "Failed to load: "@ + error
    }
}

/// Whether a weather record may be shown for a request at `now`: it must be
/// fresh under the canonical time-to-live and answer the unit and the city.
pub open spec fn weather_usable(
    record: WeatherCacheView,
    now: int,
    use_celsius: bool,
    city: Seq<char>,
) -> bool {
    fresh_at(now, record.ts, CACHE_TTL_SECS as int) && weather_matches(record, use_celsius, city)
}

/// Whether a news record may be shown at `now`: it must be fresh under the
/// canonical time-to-live.
pub open spec fn news_usable(record: NewsCacheView, now: int) -> bool {
    fresh_at(now, record.ts, CACHE_TTL_SECS as int)
}

/// The weather panel as a mathematical value.
pub struct WeatherPanel {
    pub phase: Phase,
    pub status: Seq<char>,
    pub rows: Seq<WeatherRowView>,
}

/// The news panel as a mathematical value.
pub struct NewsPanel {
    pub phase: Phase,
    pub status: Seq<char>,
    pub articles: Seq<ArticleView>,
}

/// The weather panel once a refresh is asked for.
pub open spec fn weather_triggered(p: WeatherPanel) -> WeatherPanel {
    WeatherPanel { phase: Phase::CacheCheck, status: loading_status(), rows: p.rows }
}

/// The weather panel once the cache was looked up at `now` for a request:
/// a usable record is shown at once; either way the fetch goes on.
pub open spec fn weather_cache_checked(
    p: WeatherPanel,
    record: Option<WeatherCacheView>,
    now: int,
    use_celsius: bool,
    city: Seq<char>,
) -> WeatherPanel {
    match record {
        Some(c) if weather_usable(c, now, use_celsius, city) => WeatherPanel {
            phase: Phase::NetworkInFlight,
            status: weather_cached_status(use_celsius, age_minutes_at(now, c.ts)),
            rows: c.rows,
        },
        _ => WeatherPanel { phase: Phase::NetworkInFlight, status: p.status, rows: p.rows },
    }
}

/// The weather panel once the place is resolved: the status names the
/// place, unless it stands over cached rows, which it goes on to describe.
pub open spec fn weather_place_resolved(p: WeatherPanel, label: Seq<char>) -> WeatherPanel {
    WeatherPanel {
        phase: p.phase,
        status: if has_prefix(p.status, "Cached"@) {
            p.status
        } else {
            loading_place_status(label)
        },
        rows: p.rows,
    }
}

/// The weather panel once the location search has ended: a place goes on
/// to the forecast, no match ends the refresh as a city that was not found,
/// and any other failure ends it as a failed fetch.
pub open spec fn weather_place_settled(
    p: WeatherPanel,
    outcome: Result<Seq<char>, GeocodeError>,
    city: Seq<char>,
) -> WeatherPanel {
    match outcome {
        Ok(label) => weather_place_resolved(p, label),
        Err(GeocodeError::NotFound) => weather_place_not_found(p, city),
        Err(e) => weather_failed(p, geocode_error_text(e)),
    }
}

/// The weather panel once the location search found nothing: the refresh
/// ends there.
pub open spec fn weather_place_not_found(p: WeatherPanel, city: Seq<char>) -> WeatherPanel {
    WeatherPanel { phase: Phase::Settled, status: not_found_status(city), rows: p.rows }
}

/// The weather panel once the forecast arrived.
pub open spec fn weather_fetched(p: WeatherPanel, rows: Seq<WeatherRowView>, use_celsius: bool)
    -> WeatherPanel {
    WeatherPanel { phase: Phase::Settled, status: weather_updated_status(use_celsius), rows }
}

/// The weather panel once the fetch failed: the rows stay.
pub open spec fn weather_failed(p: WeatherPanel, error: Seq<char>) -> WeatherPanel {
    WeatherPanel { phase: Phase::Settled, status: degraded_status(p.status, error), rows: p.rows }
}

/// A kept news row as shown: with the placeholder for thumbnail.
pub open spec fn shown_cached(rows: Seq<NewsRowView>, placeholder: Picture) -> Seq<ArticleView> {
    Seq::new(rows.len(), |i: int| ArticleView { row: rows[i], thumbnail: placeholder })
}

/// The news panel once a refresh is asked for.
pub open spec fn news_triggered(p: NewsPanel) -> NewsPanel {
    NewsPanel { phase: Phase::CacheCheck, status: loading_status(), articles: p.articles }
}

/// The news panel once the cache was looked up at `now`.
pub open spec fn news_cache_checked(
    p: NewsPanel,
    record: Option<NewsCacheView>,
    now: int,
    placeholder: Picture,
) -> NewsPanel {
    match record {
        Some(c) if news_usable(c, now) => NewsPanel {
            phase: Phase::NetworkInFlight,
            status: news_cached_status(age_minutes_at(now, c.ts)),
            articles: shown_cached(c.rows, placeholder),
        },
        _ => NewsPanel { phase: Phase::NetworkInFlight, status: p.status, articles: p.articles },
    }
}

/// The news panel once the articles arrived.
pub open spec fn news_fetched(p: NewsPanel, articles: Seq<ArticleView>) -> NewsPanel {
    NewsPanel { phase: Phase::Settled, status: news_updated_status(), articles }
}

/// The news panel once the fetch failed: the articles stay.
pub open spec fn news_failed(p: NewsPanel, error: Seq<char>) -> NewsPanel {
    NewsPanel {
        phase: Phase::Settled,
        status: degraded_status(p.status, error),
        articles: p.articles,
    }
}

/// The status after a failed fetch.
pub fn degrade_status(status: &str, error: &str) -> (r: String)
    ensures
        r@ == degraded_status(status@, error@),
{
    if starts_with(status, "Cached") {
        joined("Offline • ", status)
    } else {
        joined("Failed to load: ", error)
    }
}

/// The status over cached weather rows written at `ts`, seen at `now`.
pub fn cached_weather_status(use_celsius: bool, now: i64, ts: i64) -> (r: String)
    ensures
        r@ == weather_cached_status(use_celsius, age_minutes_at(now as int, ts as int)),
{
    let minutes = age_minutes_from(now, ts);
    let mut r = "Cached (".to_owned();
    r.append(unit_symbol(use_celsius));
    r.append(") • updated ");
    r.append(decimal(minutes as u64).as_str());
    r.append("m ago");
    r
}

/// The status over cached news rows written at `ts`, seen at `now`.
pub fn cached_news_status(now: i64, ts: i64) -> (r: String)
    ensures
        r@ == news_cached_status(age_minutes_at(now as int, ts as int)),
{
    let minutes = age_minutes_from(now, ts);
    let mut r = "Cached • updated ".to_owned();
    r.append(decimal(minutes as u64).as_str());
    r.append("m ago");
    r
}

/// The weather panel: the status line and the rows on screen, and where the
/// latest refresh stands.
#[derive(Debug)]
pub struct WeatherBoard {
    pub phase: Phase,
    pub status: String,
    pub rows: Vec<WeatherRow>,
}

impl View for WeatherBoard {
    type V = WeatherPanel;

    open spec fn view(&self) -> WeatherPanel {
        WeatherPanel {
            phase: self.phase,
            status: self.status@,
            rows: weather_row_views(self.rows@),
        }
    }
}

impl WeatherBoard {
    /// An idle panel with nothing on screen.
    pub fn new() -> (board: WeatherBoard)
        ensures
            board@ == (WeatherPanel {
                phase: Phase::Idle,
                status: Seq::empty(),
                rows: Seq::empty(),
            }),
    {
        let board = WeatherBoard { phase: Phase::Idle, status: String::new(), rows: Vec::new() };
        assert(board@.status =~= Seq::<char>::empty());
        assert(board@.rows =~= Seq::<WeatherRowView>::empty());
        board
    }

    /// A refresh is asked for: the status reads `Loading…`.
    pub fn trigger(&mut self)
        ensures
            final(self)@ == weather_triggered(old(self)@),
    {
        self.phase = Phase::CacheCheck;
        self.status = "Loading…".to_owned();
    }

    /// The cache was looked up at `now` for a request. A record that is
    /// fresh and answers the unit and the city is shown at once, under a
    /// status that tells its age; any other leaves the screen as it is. The
    /// fetch goes on either way. Tells whether the record was shown.
    pub fn cache_checked(
        &mut self,
        record: Option<&WeatherCache>,
        now: i64,
        use_celsius: bool,
        city: &str,
    ) -> (shown: bool)
        ensures
            final(self)@ == weather_cache_checked(
                old(self)@,
                match record {
                    Some(c) => Some(c@),
                    None => None,
                },
                now as int,
                use_celsius,
                city@,
            ),
            shown == (record matches Some(c) && weather_usable(c@, now as int, use_celsius, city@)),
    {
        self.phase = Phase::NetworkInFlight;
        match record {
            Some(c) => {
                if is_fresh_at(now, c.ts, CACHE_TTL_SECS) && c.matches(use_celsius, city) {
                    self.rows = duplicate_weather_rows(&c.rows);
                    self.status = cached_weather_status(use_celsius, now, c.ts);
                    true
                } else {
                    false
                }
            },
            None => false,
        }
    }

    /// The place was resolved: the status names it while the forecast is
    /// under way. A status over cached rows stays, so that a failure later
    /// on still finds it.
    pub fn place_resolved(&mut self, label: &str)
        ensures
            final(self)@ == weather_place_resolved(old(self)@, label@),
    {
        if !starts_with(self.status.as_str(), "Cached") {
            let mut status = "Loading… (".to_owned();
            status.append(label);
            status.append(")");
            self.status = status;
        }
    }

    /// The location search found no place: the status says so and the
    /// refresh ends without a forecast request.
    pub fn place_not_found(&mut self, city: &str)
        ensures
            final(self)@ == weather_place_not_found(old(self)@, city@),
    {
        self.phase = Phase::Settled;
        self.status = joined("City not found: ", city);
    }

    /// The forecast arrived: its hours replace the rows on screen under a
    /// clean status.
    pub fn fetched(&mut self, hours: &Vec<HourForecast>, use_celsius: bool)
        ensures
            final(self)@ == weather_fetched(
                old(self)@,
                Seq::new(hours@.len(), |i: int| row_of_forecast(hours@[i]@)),
                use_celsius,
            ),
    {
        self.phase = Phase::Settled;
        self.rows = rows_of_forecast(hours);
        let mut status = "Updated (".to_owned();
        status.append(unit_symbol(use_celsius));
        status.append(")");
        self.status = status;
        assert(final(self)@.rows =~= Seq::new(hours@.len(), |i: int| row_of_forecast(hours@[i]@)));
    }

    /// The fetch failed: a status that begins with `Cached` is kept behind
    /// `Offline • `, any other gives way to the failure's wording. The rows
    /// on screen stay as they are.
    pub fn failed(&mut self, error: &str)
        ensures
            final(self)@ == weather_failed(old(self)@, error@),
            final(self).rows@ == old(self).rows@,
    {
        self.phase = Phase::Settled;
        self.status = degrade_status(self.status.as_str(), error);
    }
}

/// The news panel: the status line and the articles on screen, and where the
/// latest refresh stands.
#[derive(Debug)]
pub struct NewsBoard {
    pub phase: Phase,
    pub status: String,
    pub articles: Vec<Article>,
}

impl View for NewsBoard {
    type V = NewsPanel;

    open spec fn view(&self) -> NewsPanel {
        NewsPanel {
            phase: self.phase,
            status: self.status@,
            articles: article_views(self.articles@),
        }
    }
}

/// Kept news rows as they are shown: each with the placeholder thumbnail.
pub fn show_cached(rows: &Vec<NewsRow>, placeholder: &Thumbnail) -> (articles: Vec<Article>)
    ensures
        article_views(articles@) == shown_cached(news_row_views(rows@), placeholder@),
{
    let mut articles: Vec<Article> = Vec::new();
    let mut i: usize = 0;
    while i < rows.len()
        invariant
            i <= rows.len(),
            articles@.len() == i,
            forall|k: int|
                0 <= k < i ==> (#[trigger] articles@[k])@ == (ArticleView {
                    row: rows@[k]@,
                    thumbnail: placeholder@,
                }),
        decreases rows.len() - i,
    {
        let row = &rows[i];
        articles.push(
            Article {
                title: row.title.clone(),
                source: row.source.clone(),
                published: row.published.clone(),
                url: row.url.clone(),
                thumbnail: placeholder.duplicate(),
            },
        );
        i += 1;
    }
    assert(article_views(articles@) =~= shown_cached(news_row_views(rows@), placeholder@));
    articles
}

impl NewsBoard {
    /// An idle panel with nothing on screen.
    pub fn new() -> (board: NewsBoard)
        ensures
            board@ == (NewsPanel {
                phase: Phase::Idle,
                status: Seq::empty(),
                articles: Seq::empty(),
            }),
    {
        let board = NewsBoard { phase: Phase::Idle, status: String::new(), articles: Vec::new() };
        assert(board@.status =~= Seq::<char>::empty());
        assert(board@.articles =~= Seq::<ArticleView>::empty());
        board
    }

    /// A refresh is asked for: the status reads `Loading…`.
    pub fn trigger(&mut self)
        ensures
            final(self)@ == news_triggered(old(self)@),
    {
        self.phase = Phase::CacheCheck;
        self.status = "Loading…".to_owned();
    }

    /// The cache was looked up at `now`. A fresh record is shown at once,
    /// each row with the placeholder thumbnail, under a status that tells
    /// its age; any other leaves the screen as it is. The fetch goes on
    /// either way. Tells whether the record was shown.
    pub fn cache_checked(&mut self, record: Option<&NewsCache>, now: i64, placeholder: &Thumbnail)
        -> (shown: bool)
        ensures
            final(self)@ == news_cache_checked(
                old(self)@,
                match record {
                    Some(c) => Some(c@),
                    None => None,
                },
                now as int,
                placeholder@,
            ),
            shown == (record matches Some(c) && news_usable(c@, now as int)),
    {
        self.phase = Phase::NetworkInFlight;
        match record {
            Some(c) => {
                if is_fresh_at(now, c.ts, CACHE_TTL_SECS) {
                    self.articles = show_cached(&c.rows, placeholder);
                    self.status = cached_news_status(now, c.ts);
                    true
                } else {
                    false
                }
            },
            None => false,
        }
    }

    /// The articles arrived: they replace those on screen under a clean
    /// status.
    pub fn fetched(&mut self, articles: Vec<Article>)
        ensures
            final(self)@ == news_fetched(old(self)@, article_views(articles@)),
    {
        self.phase = Phase::Settled;
        self.articles = articles;
        self.status = "Updated".to_owned();
    }

    /// The fetch failed: a status that begins with `Cached` is kept behind
    /// `Offline • `, any other gives way to the failure's wording. The
    /// articles on screen stay as they are.
    pub fn failed(&mut self, error: &str)
        ensures
            final(self)@ == news_failed(old(self)@, error@),
            final(self).articles@ == old(self).articles@,
    {
        self.phase = Phase::Settled;
        self.status = degrade_status(self.status.as_str(), error);
    }
}

/// Both cached statuses begin with `Cached`, and the loading status and the
/// two clean statuses do not.
pub proof fn lemma_status_prefixes(use_celsius: bool, minutes: int, label: Seq<char>)
    ensures
        has_prefix(weather_cached_status(use_celsius, minutes), "Cached"@),
        has_prefix(news_cached_status(minutes), "Cached"@),
        !has_prefix(loading_status(), "Cached"@),
        !has_prefix(loading_place_status(label), "Cached"@),
        !has_prefix(weather_updated_status(use_celsius), "Cached"@),
        !has_prefix(news_updated_status(), "Cached"@),
{
    reveal_strlit("Cached");
    reveal_strlit("Cached (");
    reveal_strlit("Cached • updated ");
    reveal_strlit("Loading…");
    reveal_strlit("Loading… (");
    reveal_strlit("Updated (");
    reveal_strlit("Updated");
    let c = "Cached"@;
    let w = weather_cached_status(use_celsius, minutes);
    assert(w.subrange(0, 6) =~= c);
    let n = news_cached_status(minutes);
    assert(n.subrange(0, 6) =~= c);
    assert(loading_status()[0] != c[0]);
    assert(loading_place_status(label)[0] != c[0]);
    assert(weather_updated_status(use_celsius)[0] != c[0]);
    assert(news_updated_status()[0] != c[0]);
    if has_prefix(loading_status(), c) {
        assert(loading_status().subrange(0, 6)[0] == c[0]);
    }
    if has_prefix(loading_place_status(label), c) {
        assert(loading_place_status(label).subrange(0, 6)[0] == c[0]);
    }
    if has_prefix(weather_updated_status(use_celsius), c) {
        assert(weather_updated_status(use_celsius).subrange(0, 6)[0] == c[0]);
    }
    if has_prefix(news_updated_status(), c) {
        assert(news_updated_status().subrange(0, 6)[0] == c[0]);
    }
}

/// A status that begins with `Cached` degrades to one that begins with
/// `Offline • Cached`.
pub proof fn lemma_degraded_cached(status: Seq<char>, error: Seq<char>)
    requires
        has_prefix(status, "Cached"@),
    ensures
        degraded_status(status, error) == "Offline • "@ + status,
        has_prefix(degraded_status(status, error), "Offline • Cached"@),
{
    reveal_strlit("Cached");
    reveal_strlit("Offline • ");
    reveal_strlit("Offline • Cached");
    let after = "Offline • "@ + status;
    assert(status.subrange(0, 6) == "Cached"@);
    assert(after.subrange(0, 16) =~= "Offline • "@ + status.subrange(0, 6));
    assert("Offline • "@ + "Cached"@ =~= "Offline • Cached"@);
}

/// Offline fallback for weather: when a refresh finds a record that is
/// fresh and answers the request, and the network then fails, the status
/// begins with `Offline • Cached` and the rows on screen are the record's.
/// This holds wherever the network fails: in the location search, or in the
/// forecast after the place was resolved.
pub proof fn lemma_weather_offline_fallback(
    before: WeatherPanel,
    record: WeatherCacheView,
    now: int,
    use_celsius: bool,
    city: Seq<char>,
    label: Seq<char>,
    search_failure: GeocodeError,
    error: Seq<char>,
)
    requires
        weather_usable(record, now, use_celsius, city),
        !(search_failure is NotFound),
    ensures
        ({
            let shown = weather_cache_checked(
                weather_triggered(before),
                Some(record),
                now,
                use_celsius,
                city,
            );
            let search_failed = weather_place_settled(shown, Err(search_failure), city);
            let forecast_failed = weather_failed(
                weather_place_settled(shown, Ok(label), city),
                error,
            );
            &&& has_prefix(search_failed.status, "Offline • Cached"@)
            &&& search_failed.rows == record.rows
            &&& search_failed.phase == Phase::Settled
            &&& has_prefix(forecast_failed.status, "Offline • Cached"@)
            &&& forecast_failed.rows == record.rows
            &&& forecast_failed.phase == Phase::Settled
        }),
{
    let cached = weather_cached_status(use_celsius, age_minutes_at(now, record.ts));
    lemma_status_prefixes(use_celsius, age_minutes_at(now, record.ts), label);
    lemma_degraded_cached(cached, error);
    lemma_degraded_cached(cached, geocode_error_text(search_failure));
}

/// Offline fallback for news: when a refresh finds a fresh record and the
/// fetch then fails, the status begins with `Offline • Cached` and the
/// articles on screen are the record's rows.
pub proof fn lemma_news_offline_fallback(
    before: NewsPanel,
    record: NewsCacheView,
    now: int,
    placeholder: Picture,
    error: Seq<char>,
)
    requires
        news_usable(record, now),
    ensures
        ({
            let after = news_failed(
                news_cache_checked(news_triggered(before), Some(record), now, placeholder),
                error,
            );
            has_prefix(after.status, "Offline • Cached"@) && after.articles == shown_cached(
                record.rows,
                placeholder,
            ) && after.articles.len() == record.rows.len() && after.phase == Phase::Settled
        }),
{
    lemma_status_prefixes(true, age_minutes_at(now, record.ts), Seq::empty());
    lemma_degraded_cached(news_cached_status(age_minutes_at(now, record.ts)), error);
}

/// Without a usable record, a refresh that fails ends under the failure's
/// wording and leaves the rows as they were before it.
pub proof fn lemma_weather_failure_without_cache(
    before: WeatherPanel,
    record: Option<WeatherCacheView>,
    now: int,
    use_celsius: bool,
    city: Seq<char>,
    error: Seq<char>,
)
    requires
        !(record matches Some(c) && weather_usable(c, now, use_celsius, city)),
    ensures
        ({
            let after = weather_failed(
                weather_cache_checked(weather_triggered(before), record, now, use_celsius, city),
                error,
            );
            after.status == "Failed to load: "@ + error && after.rows == before.rows
        }),
{
    lemma_status_prefixes(use_celsius, 0, Seq::empty());
}

/// What a weather refresh does once the location search has ended.
#[derive(Debug)]
pub enum WeatherStep {
    /// Ask for the forecast at these coordinates.
    Forecast { latitude: String, longitude: String },
    /// Ask for nothing more: the refresh has ended.
    Stop,
}

impl WeatherBoard {
    /// The location search has ended. A place goes on to the forecast at
    /// its coordinates. No match ends the refresh as a city that was not
    /// found; any other failure ends it as a failed fetch. Neither asks for
    /// a forecast.
    pub fn place_outcome(&mut self, outcome: Result<Place, GeocodeError>, city: &str) -> (step:
        WeatherStep)
        ensures
            final(self)@ == weather_place_settled(
                old(self)@,
                match outcome {
                    Ok(place) => Ok(place.label@),
                    Err(e) => Err(e),
                },
                city@,
            ),
            match outcome {
                Ok(place) => step matches WeatherStep::Forecast { latitude, longitude }
                    && latitude == place.latitude && longitude == place.longitude,
                Err(_) => step is Stop,
            },
    {
        match outcome {
            Ok(place) => {
                self.place_resolved(place.label.as_str());
                WeatherStep::Forecast { latitude: place.latitude, longitude: place.longitude }
            },
            Err(GeocodeError::NotFound) => {
                self.place_not_found(city);
                WeatherStep::Stop
            },
            Err(e) => {
                self.failed(e.message().as_str());
                WeatherStep::Stop
            },
        }
    }
}

/// A record in another unit, or under another city key than the lower-case
/// form of the city asked for, is never shown, however fresh: the cache
/// check leaves the screen as it was.
pub proof fn lemma_mismatch_is_never_shown(
    before: WeatherPanel,
    record: WeatherCacheView,
    now: int,
    use_celsius: bool,
    city: Seq<char>,
)
    requires
        record.units != crate::cache::units_key(use_celsius) || record.city != lowercased(city),
    ensures
        !weather_usable(record, now, use_celsius, city),
        weather_cache_checked(before, Some(record), now, use_celsius, city).rows == before.rows,
        weather_cache_checked(before, Some(record), now, use_celsius, city).status
            == before.status,
{
}

/// The record that a fetch left is shown by the next refresh for the same
/// unit and city, for as long as it is fresh: its rows go on screen under a
/// status that begins with `Cached`.
pub proof fn lemma_own_record_is_shown(
    before: WeatherPanel,
    rows: Seq<WeatherRowView>,
    use_celsius: bool,
    city: Seq<char>,
    written: int,
    now: int,
)
    requires
        now - written <= CACHE_TTL_SECS,
    ensures
        ({
            let record = weather_record_of(rows, use_celsius, city, written);
            let after = weather_cache_checked(before, Some(record), now, use_celsius, city);
            weather_usable(record, now, use_celsius, city) && after.rows == rows && has_prefix(
                after.status,
                "Cached"@,
            )
        }),
{
    lemma_own_record_matches(rows, use_celsius, city, written);
    lemma_status_prefixes(use_celsius, age_minutes_at(now, written), Seq::empty());
}

/// A failure never changes the rows on screen, and every refresh ends
/// settled, whether the place is not found, the fetch fails or it succeeds.
pub proof fn lemma_refresh_settles(
    p: WeatherPanel,
    n: NewsPanel,
    error: Seq<char>,
    city: Seq<char>,
    rows: Seq<WeatherRowView>,
    articles: Seq<ArticleView>,
    use_celsius: bool,
)
    ensures
        weather_failed(p, error).rows == p.rows,
        news_failed(n, error).articles == n.articles,
        weather_place_not_found(p, city).rows == p.rows,
        weather_failed(p, error).phase == Phase::Settled,
        weather_place_not_found(p, city).phase == Phase::Settled,
        weather_fetched(p, rows, use_celsius).phase == Phase::Settled,
        news_failed(n, error).phase == Phase::Settled,
        news_fetched(n, articles).phase == Phase::Settled,
{
}

} // verus!
