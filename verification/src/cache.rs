//! The records of the freshness store: what the last successful fetch of
//! each domain brought, for which request, and when.

use vstd::prelude::*;
use vstd::string::*;
use crate::text::{joined, lowercase, lowercased, same_text};
use crate::weather::{HourForecast, HourForecastView};

verus! {

/// One hour of weather as it is kept and shown.
#[derive(Clone, Debug)]
pub struct WeatherRow {
    pub time: String,
    pub temp: String,
    pub summary: String,
    pub real_feel: String,
    pub precip: String,
    pub icon_url: String,
}

/// One hour of weather as a mathematical value.
pub struct WeatherRowView {
    pub time: Seq<char>,
    pub temp: Seq<char>,
    pub summary: Seq<char>,
    pub real_feel: Seq<char>,
    pub precip: Seq<char>,
    pub icon_url: Seq<char>,
}

impl View for WeatherRow {
    type V = WeatherRowView;

    open spec fn view(&self) -> WeatherRowView {
        WeatherRowView {
            time: self.time@,
            temp: self.temp@,
            summary: self.summary@,
            real_feel: self.real_feel@,
            precip: self.precip@,
            icon_url: self.icon_url@,
        }
    }
}

/// The rows of a list as mathematical values.
pub open spec fn weather_row_views(v: Seq<WeatherRow>) -> Seq<WeatherRowView> {
    Seq::new(v.len(), |i: int| v[i]@)
}

/// The last successful weather fetch of one user.
#[derive(Debug)]
pub struct WeatherCache {
    /// When the fetch succeeded, in seconds since the epoch.
    pub ts: i64,
    /// The unit the rows are worded in: `C` or `F`.
    pub units: String,
    /// The city the rows are for, in lower case.
    pub city: String,
    pub rows: Vec<WeatherRow>,
}

/// A weather record as a mathematical value.
pub struct WeatherCacheView {
    pub ts: int,
    pub units: Seq<char>,
    pub city: Seq<char>,
    pub rows: Seq<WeatherRowView>,
}

impl View for WeatherCache {
    type V = WeatherCacheView;

    open spec fn view(&self) -> WeatherCacheView {
        WeatherCacheView {
            ts: self.ts as int,
            units: self.units@,
            city: self.city@,
            rows: weather_row_views(self.rows@),
        }
    }
}

/// One article as it is kept: without its thumbnail.
#[derive(Clone, Debug)]
pub struct NewsRow {
    pub title: String,
    pub source: String,
    pub published: String,
    pub url: String,
}

/// One kept article as a mathematical value.
pub struct NewsRowView {
    pub title: Seq<char>,
    pub source: Seq<char>,
    pub published: Seq<char>,
    pub url: Seq<char>,
}

impl View for NewsRow {
    type V = NewsRowView;

    open spec fn view(&self) -> NewsRowView {
        NewsRowView {
            title: self.title@,
            source: self.source@,
            published: self.published@,
            url: self.url@,
        }
    }
}

/// The rows of a list as mathematical values.
pub open spec fn news_row_views(v: Seq<NewsRow>) -> Seq<NewsRowView> {
    Seq::new(v.len(), |i: int| v[i]@)
}

/// The last successful news fetch of one user.
#[derive(Debug)]
pub struct NewsCache {
    /// When the fetch succeeded, in seconds since the epoch.
    pub ts: i64,
    pub rows: Vec<NewsRow>,
}

/// A news record as a mathematical value.
pub struct NewsCacheView {
    pub ts: int,
    pub rows: Seq<NewsRowView>,
}

impl View for NewsCache {
    type V = NewsCacheView;

    open spec fn view(&self) -> NewsCacheView {
        NewsCacheView { ts: self.ts as int, rows: news_row_views(self.rows@) }
    }
}

/// The kept form of a forecast hour.
pub open spec fn row_of_forecast(f: HourForecastView) -> WeatherRowView {
    WeatherRowView {
        time: f.time,
        temp: f.temp,
        summary: f.description,
        real_feel: f.real_feel,
        precip: f.precip,
        icon_url: f.icon_url,
    }
}

impl WeatherRow {
    /// The kept form of a forecast hour.
    pub fn from_forecast(f: &HourForecast) -> (row: WeatherRow)
        ensures
            row@ == row_of_forecast(f@),
    {
        WeatherRow {
            time: f.time.clone(),
            temp: f.temp.clone(),
            summary: f.description.clone(),
            real_feel: f.real_feel.clone(),
            precip: f.precip.clone(),
            icon_url: f.icon_url.clone(),
        }
    }

    /// A second row with the same texts.
    pub fn duplicate(&self) -> (row: WeatherRow)
        ensures
            row@ == self@,
    {
        WeatherRow {
            time: self.time.clone(),
            temp: self.temp.clone(),
            summary: self.summary.clone(),
            real_feel: self.real_feel.clone(),
            precip: self.precip.clone(),
            icon_url: self.icon_url.clone(),
        }
    }
}

impl NewsRow {
    /// A second row with the same texts.
    pub fn duplicate(&self) -> (row: NewsRow)
        ensures
            row@ == self@,
    {
        NewsRow {
            title: self.title.clone(),
            source: self.source.clone(),
            published: self.published.clone(),
            url: self.url.clone(),
        }
    }
}

/// The kept forms of a list of forecast hours, in order.
pub fn rows_of_forecast(hours: &Vec<HourForecast>) -> (rows: Vec<WeatherRow>)
    ensures
        rows@.len() == hours@.len(),
        forall|i: int| 0 <= i < hours@.len() ==> (#[trigger] rows@[i])@ == row_of_forecast(hours@[i]@),
{
    let mut rows: Vec<WeatherRow> = Vec::new();
    let mut i: usize = 0;
    while i < hours.len()
        invariant
            i <= hours.len(),
            rows@.len() == i,
            forall|k: int| 0 <= k < i ==> (#[trigger] rows@[k])@ == row_of_forecast(hours@[k]@),
        decreases hours.len() - i,
    {
        rows.push(WeatherRow::from_forecast(&hours[i]));
        i += 1;
    }
    rows
}

/// A second list with the same weather rows.
pub fn duplicate_weather_rows(rows: &Vec<WeatherRow>) -> (copy: Vec<WeatherRow>)
    ensures
        weather_row_views(copy@) == weather_row_views(rows@),
{
    let mut copy: Vec<WeatherRow> = Vec::new();
    let mut i: usize = 0;
    while i < rows.len()
        invariant
            i <= rows.len(),
            copy@.len() == i,
            forall|k: int| 0 <= k < i ==> (#[trigger] copy@[k])@ == rows@[k]@,
        decreases rows.len() - i,
    {
        copy.push(rows[i].duplicate());
        i += 1;
    }
    assert(weather_row_views(copy@) =~= weather_row_views(rows@));
    copy
}

/// The key under which a temperature unit is kept: `C` or `F`.
pub open spec fn units_key(use_celsius: bool) -> Seq<char> {
    if use_celsius {
        "C"@
    } else {
        "F"@
    }
}

/// The key under which a temperature unit is kept: `C` or `F`.
pub fn units_text(use_celsius: bool) -> (r: &'static str)
    ensures
        r@ == units_key(use_celsius),
{
    if use_celsius {
        "C"
    } else {
        "F"
    }
}

/// The directory of one user's cache files.
pub open spec fn cache_dir(user: Seq<char>) -> Seq<char> {
    "cache/users/"@ + user
}

/// The file of one user's weather record.
pub open spec fn weather_file(user: Seq<char>) -> Seq<char> {
    cache_dir(user) + "/weather.json"@
}

/// The file of one user's news record.
pub open spec fn news_file(user: Seq<char>) -> Seq<char> {
    cache_dir(user) + "/news.json"@
}

/// The directory of one user's cache files.
pub fn user_cache_dir(user: &str) -> (path: String)
    ensures
        path@ == cache_dir(user@),
{
    joined("cache/users/", user)
}

/// The file of one user's weather record.
pub fn weather_path_for(user: &str) -> (path: String)
    ensures
        path@ == weather_file(user@),
{
    let mut path = user_cache_dir(user);
    path.append("/weather.json");
    path
}

/// The file of one user's news record.
pub fn news_path_for(user: &str) -> (path: String)
    ensures
        path@ == news_file(user@),
{
    let mut path = user_cache_dir(user);
    path.append("/news.json");
    path
}

/// Whether a record kept under `units` and the city key `city_key` answers a
/// request for `wanted_units` and the city key `wanted_key`: both must be
/// equal.
pub open spec fn params_equal(
    units: Seq<char>,
    city_key: Seq<char>,
    wanted_units: Seq<char>,
    wanted_key: Seq<char>,
) -> bool {
    units == wanted_units && city_key == wanted_key
}

/// Whether a weather record answers a request for a unit and a city: the
/// unit must be the one it is kept under, and the city, in lower case, the
/// key it is kept under. The case in which the city is asked for makes no
/// difference.
pub open spec fn weather_matches(record: WeatherCacheView, use_celsius: bool, city: Seq<char>)
    -> bool {
    params_equal(record.units, record.city, units_key(use_celsius), lowercased(city))
}

/// The record of a weather fetch that succeeded at `now` for `city` in the
/// given unit: the city is kept in lower case.
pub open spec fn weather_record_of(
    rows: Seq<WeatherRowView>,
    use_celsius: bool,
    city: Seq<char>,
    now: int,
) -> WeatherCacheView {
    WeatherCacheView { ts: now, units: units_key(use_celsius), city: lowercased(city), rows }
}

/// The record of a news fetch that succeeded at `now`.
pub open spec fn news_record_of(rows: Seq<NewsRowView>, now: int) -> NewsCacheView {
    NewsCacheView { ts: now, rows }
}

/// The record of a fetch answers the request it was made for, and no
/// request for the other unit.
pub proof fn lemma_own_record_matches(
    rows: Seq<WeatherRowView>,
    use_celsius: bool,
    city: Seq<char>,
    now: int,
)
    ensures
        weather_matches(weather_record_of(rows, use_celsius, city, now), use_celsius, city),
        !weather_matches(weather_record_of(rows, use_celsius, city, now), !use_celsius, city),
{
    reveal_strlit("C");
    reveal_strlit("F");
    assert("C"@[0] != "F"@[0]);
}

/// Whether a record kept under `units` and `city_key` answers a request for
/// `wanted_units` and `wanted_key`.
pub fn params_match(units: &str, city_key: &str, wanted_units: &str, wanted_key: &str) -> (r: bool)
    ensures
        r == params_equal(units@, city_key@, wanted_units@, wanted_key@),
{
    same_text(units, wanted_units) && same_text(city_key, wanted_key)
}

impl WeatherCache {
    /// The record of a fetch that succeeded at `now` for `city` in the given
    /// unit. The city is kept in lower case.
    pub fn new(rows: Vec<WeatherRow>, use_celsius: bool, city: &str, now: i64) -> (record:
        WeatherCache)
        ensures
            record@ == weather_record_of(
                weather_row_views(rows@),
                use_celsius,
                city@,
                now as int,
            ),
    {
        WeatherCache {
            ts: now,
            units: units_text(use_celsius).to_owned(),
            city: lowercase(city),
            rows,
        }
    }

    /// Whether this record answers a request for a unit and a city. A record
    /// in another unit or for another city never does, however fresh.
    pub fn matches(&self, use_celsius: bool, city: &str) -> (r: bool)
        ensures
            r == weather_matches(self@, use_celsius, city@),
            self.units@ != units_key(use_celsius) ==> !r,
    {
        let wanted = lowercase(city);
        params_match(
            self.units.as_str(),
            self.city.as_str(),
            units_text(use_celsius),
            wanted.as_str(),
        )
    }
}

impl NewsCache {
    /// The record of a fetch that succeeded at `now`.
    pub fn new(rows: Vec<NewsRow>, now: i64) -> (record: NewsCache)
        ensures
            record@ == news_record_of(news_row_views(rows@), now as int),
    {
        NewsCache { ts: now, rows }
    }
}

/// The storage path is a function of user and domain that tells them apart:
/// two users never share a file, and no weather file is a news file.
pub proof fn lemma_paths_tell_apart(a: Seq<char>, b: Seq<char>)
    ensures
        weather_file(a) == weather_file(b) ==> a == b,
        news_file(a) == news_file(b) ==> a == b,
        weather_file(a) != news_file(b),
{
    reveal_strlit("/weather.json");
    reveal_strlit("/news.json");
    let stem = "cache/users/"@;
    let w = "/weather.json"@;
    let n = "/news.json"@;
    assert(weather_file(a).len() == stem.len() + a.len() + w.len());
    assert(weather_file(b).len() == stem.len() + b.len() + w.len());
    assert(news_file(a).len() == stem.len() + a.len() + n.len());
    assert(news_file(b).len() == stem.len() + b.len() + n.len());
    if weather_file(a) == weather_file(b) {
        assert(a.len() == b.len());
        assert forall|i: int| 0 <= i < a.len() implies a[i] == b[i] by {
            assert(weather_file(a)[stem.len() + i] == a[i]);
            assert(weather_file(b)[stem.len() + i] == b[i]);
        }
        assert(a =~= b);
    }
    if news_file(a) == news_file(b) {
        assert(a.len() == b.len());
        assert forall|i: int| 0 <= i < a.len() implies a[i] == b[i] by {
            assert(news_file(a)[stem.len() + i] == a[i]);
            assert(news_file(b)[stem.len() + i] == b[i]);
        }
        assert(a =~= b);
    }
    if weather_file(a) == news_file(b) {
        let x = weather_file(a);
        let y = news_file(b);
        assert(x[x.len() - 6] == w[w.len() - 6]);
        assert(y[y.len() - 6] == n[n.len() - 6]);
    }
}

} // verus!
