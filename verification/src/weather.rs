//! The hourly forecast: which hours of a series lie ahead and how each is
//! worded for display.

use vstd::prelude::*;
use vstd::string::*;
use crate::text::{
    chars_of,
    decimal,
    decimal_text,
    find_from,
    find_in,
    joined,
    same_text,
    slice_of,
};

verus! {

/// A point of civil time: whole seconds on a fixed scale and the nanoseconds
/// past them. Two points compare as their pairs do.
#[derive(Clone, Copy, Debug, PartialEq, Eq, Structural)]
pub struct Stamp {
    pub secs: i64,
    pub nanos: u32,
}

/// Whether `a` is no earlier than `b`.
pub open spec fn at_or_after(a: Stamp, b: Stamp) -> bool {
    a.secs > b.secs || (a.secs == b.secs && a.nanos >= b.nanos)
}

impl Stamp {
    /// Whether this point is no earlier than `other`.
    pub fn is_at_or_after(&self, other: &Stamp) -> (r: bool)
        ensures
            r == at_or_after(*self, *other),
    {
        self.secs > other.secs || (self.secs == other.secs && self.nanos >= other.nanos)
    }
}

/// One hour of forecast, worded for display.
#[derive(Clone, Debug)]
pub struct HourForecast {
    pub time: String,
    pub temp: String,
    pub description: String,
    pub real_feel: String,
    pub precip: String,
    pub icon_url: String,
}

/// One hour of forecast as a mathematical value.
pub struct HourForecastView {
    pub time: Seq<char>,
    pub temp: Seq<char>,
    pub description: Seq<char>,
    pub real_feel: Seq<char>,
    pub precip: Seq<char>,
    pub icon_url: Seq<char>,
}

impl View for HourForecast {
    type V = HourForecastView;

    open spec fn view(&self) -> HourForecastView {
        HourForecastView {
            time: self.time@,
            temp: self.temp@,
            description: self.description@,
            real_feel: self.real_feel@,
            precip: self.precip@,
            icon_url: self.icon_url@,
        }
    }
}

/// The hours of a list of forecasts as mathematical values.
pub open spec fn forecast_views(v: Seq<HourForecast>) -> Seq<HourForecastView> {
    Seq::new(v.len(), |i: int| v[i]@)
}

/// An hourly series as the forecast service gives it: parallel lists, one
/// entry per hour. Temperatures are texts, rounded to whole degrees.
pub struct Hourly {
    pub time: Vec<String>,
    pub temperature: Vec<String>,
    pub real_feel: Vec<String>,
    pub p_probability: Vec<u8>,
    pub weather_code: Vec<u8>,
    pub is_day: Vec<u8>,
}

/// An hourly series as a mathematical value.
pub struct HourlyView {
    pub time: Seq<Seq<char>>,
    pub temperature: Seq<Seq<char>>,
    pub real_feel: Seq<Seq<char>>,
    pub p_probability: Seq<u8>,
    pub weather_code: Seq<u8>,
    pub is_day: Seq<u8>,
}

/// The characters of each of a sequence of texts.
pub open spec fn texts(v: Seq<String>) -> Seq<Seq<char>> {
    Seq::new(v.len(), |i: int| v[i]@)
}

impl View for Hourly {
    type V = HourlyView;

    open spec fn view(&self) -> HourlyView {
        HourlyView {
            time: texts(self.time@),
            temperature: texts(self.temperature@),
            real_feel: texts(self.real_feel@),
            p_probability: self.p_probability@,
            weather_code: self.weather_code@,
            is_day: self.is_day@,
        }
    }
}

/// How one kind of weather is described and pictured.
pub struct CodeInfo {
    pub description: String,
    pub image: String,
}

/// The descriptions of one weather code by day and by night.
pub struct DayNight {
    pub day: CodeInfo,
    pub night: CodeInfo,
}

/// One line of the weather code table: a code's numeral and what it means.
pub struct CodeEntry {
    pub code: String,
    pub meaning: DayNight,
}

/// One line of the weather code table as a mathematical value.
pub struct CodeEntryView {
    pub code: Seq<char>,
    pub day_description: Seq<char>,
    pub day_image: Seq<char>,
    pub night_description: Seq<char>,
    pub night_image: Seq<char>,
}

impl View for CodeEntry {
    type V = CodeEntryView;

    open spec fn view(&self) -> CodeEntryView {
        CodeEntryView {
            code: self.code@,
            day_description: self.meaning.day.description@,
            day_image: self.meaning.day.image@,
            night_description: self.meaning.night.description@,
            night_image: self.meaning.night.image@,
        }
    }
}

/// The weather code table: a static resource handed to the forecast wording.
pub struct CodeTable {
    pub entries: Vec<CodeEntry>,
}

impl View for CodeTable {
    type V = Seq<CodeEntryView>;

    open spec fn view(&self) -> Seq<CodeEntryView> {
        Seq::new(self.entries@.len(), |i: int| self.entries@[i]@)
    }
}

/// The first line of the table, at or after `from`, whose code is `key`.
pub open spec fn table_line(table: Seq<CodeEntryView>, key: Seq<char>, from: int) -> Option<
    CodeEntryView,
>
    decreases table.len() - from,
{
    if from < 0 || from >= table.len() {
        None
    } else if table[from].code == key {
        Some(table[from])
    } else {
        table_line(table, key, from + 1)
    }
}

/// Description and icon of a weather code by day or night. A code that the
/// table lacks has a dash for description and no icon.
pub open spec fn described(table: Seq<CodeEntryView>, code: u8, daytime: bool) -> (
    Seq<char>,
    Seq<char>,
) {
    match table_line(table, decimal_text(code as nat), 0) {
        Some(line) => if daytime {
            (line.day_description, line.day_image)
        } else {
            (line.night_description, line.night_image)
        },
        None => ("—"@, Seq::empty()),
    }
}

/// The glyph of the temperature unit.
pub open spec fn unit_glyph(use_celsius: bool) -> Seq<char> {
    if use_celsius {
        "°C"@
    } else {
        "°F"@
    }
}

/// The word for the temperature unit in a forecast request.
pub open spec fn unit_word(use_celsius: bool) -> Seq<char> {
    if use_celsius {
        "celsius"@
    } else {
        "fahrenheit"@
    }
}

/// The address of the hourly forecast for a place.
pub open spec fn forecast_address(lat: Seq<char>, lon: Seq<char>, use_celsius: bool) -> Seq<
    char,
> {
    "https://api.open-meteo.com/v1/forecast?latitude="@ + lat + "&longitude="@ + lon
        + "&hourly=temperature_2m,apparent_temperature,precipitation_probability,weather_code,is_day&timezone=auto&forecast_days=1&temperature_unit="@
        + unit_word(use_celsius)
}

/// The hour-of-day part of a source timestamp: what stands between its first
/// `T` and the next one, or its end. A timestamp without `T` reads `00:00`.
pub open spec fn hour_label(t: Seq<char>) -> Seq<char> {
    match find_from(t, seq!['T'], 0) {
        None => "00:00"@,
        Some(i) => match find_from(t, seq!['T'], i + 1) {
            Some(j) => t.subrange(i + 1, j),
            None => t.subrange(i + 1, t.len() as int),
        },
    }
}

/// The entry of a list at `i`, or `0` where the list is too short.
pub open spec fn text_or_zero(v: Seq<Seq<char>>, i: int) -> Seq<char> {
    if 0 <= i < v.len() {
        v[i]
    } else {
        "0"@
    }
}

/// The entry of a list at `i`, or 0 where the list is too short.
pub open spec fn byte_or_zero(v: Seq<u8>, i: int) -> u8 {
    if 0 <= i < v.len() {
        v[i]
    } else {
        0
    }
}

/// The wording of hour `i` of a series in a window that starts at `start`.
pub open spec fn hour_entry(
    hourly: HourlyView,
    table: Seq<CodeEntryView>,
    start: int,
    i: int,
    use_celsius: bool,
) -> HourForecastView {
    let meaning = described(
        table,
        byte_or_zero(hourly.weather_code, i),
        byte_or_zero(hourly.is_day, i) == 1,
    );
    HourForecastView {
        time: if i == start {
            "Now"@
        } else {
            hour_label(hourly.time[i])
        },
        temp: text_or_zero(hourly.temperature, i) + unit_glyph(use_celsius),
        description: meaning.0,
        real_feel: "Feels "@ + text_or_zero(hourly.real_feel, i) + unit_glyph(use_celsius),
        precip: decimal_text(byte_or_zero(hourly.p_probability, i) as nat) + "% precipitation"@,
        icon_url: meaning.1,
    }
}

/// How many hours a window of `count` hours from `start` holds in a series
/// of `total` hours.
pub open spec fn window_len(total: int, start: int, count: int) -> int {
    if start >= total {
        0
    } else if count <= total - start {
        count
    } else {
        total - start
    }
}

/// The next `count` hours of a series from hour `start` on, worded for
/// display; fewer where the series ends before.
pub open spec fn hours_window(
    hourly: HourlyView,
    table: Seq<CodeEntryView>,
    start: int,
    count: int,
    use_celsius: bool,
) -> Seq<HourForecastView> {
    Seq::new(
        window_len(hourly.time.len() as int, start, count) as nat,
        |k: int| hour_entry(hourly, table, start, start + k, use_celsius),
    )
}

/// Whether an hour with this reading of its timestamp is no earlier than
/// `now`. An hour whose timestamp could not be read never is.
pub open spec fn is_upcoming(stamp: Option<Stamp>, now: Stamp) -> bool {
    stamp matches Some(t) && at_or_after(t, now)
}

/// The first hour at or after `from` that is no earlier than `now`.
pub open spec fn first_upcoming_from(stamps: Seq<Option<Stamp>>, now: Stamp, from: int)
    -> Option<int>
    decreases stamps.len() - from,
{
    if from < 0 || from >= stamps.len() {
        None
    } else if is_upcoming(stamps[from], now) {
        Some(from)
    } else {
        first_upcoming_from(stamps, now, from + 1)
    }
}

/// The hour at which the window starts: the first that is no earlier than
/// `now`, or hour 0 when there is none.
pub open spec fn start_hour(stamps: Seq<Option<Stamp>>, now: Stamp) -> int {
    match first_upcoming_from(stamps, now, 0) {
        Some(i) => i,
        None => 0,
    }
}

/// `first_upcoming_from` yields an upcoming hour before which, from `from`
/// on, none is upcoming; where it yields nothing, no hour from `from` on is.
pub proof fn lemma_first_upcoming(stamps: Seq<Option<Stamp>>, now: Stamp, from: int)
    requires
        0 <= from,
    ensures
        match first_upcoming_from(stamps, now, from) {
            Some(i) => from <= i < stamps.len() && is_upcoming(stamps[i], now) && forall|j: int|
                from <= j < i ==> !is_upcoming(stamps[j], now),
            None => forall|j: int| from <= j < stamps.len() ==> !is_upcoming(stamps[j], now),
        },
    decreases stamps.len() - from,
{
    if from >= stamps.len() {
    } else if is_upcoming(stamps[from], now) {
    } else {
        lemma_first_upcoming(stamps, now, from + 1);
    }
}

/// The format of the timestamps of a forecast series.
pub open spec fn hour_format() -> Seq<char> {
    "%Y-%m-%dT%H:%M"@
}

/// What a text reads as under a date-and-time format without time zone: the
/// point of civil time it names, or nothing when it does not fit the format.
pub uninterp spec fn parsed_naive(text: Seq<char>, format: Seq<char>) -> Option<Stamp>;

/// The readings of the timestamps of a series.
pub open spec fn hour_stamps(times: Seq<Seq<char>>) -> Seq<Option<Stamp>> {
    Seq::new(times.len(), |i: int| parsed_naive(times[i], hour_format()))
}

/// Calls `chrono::NaiveDateTime::parse_from_str` and gives the parsed value
/// as the seconds (`timestamp`) and nanoseconds (`timestamp_subsec_nanos`) of
/// that civil time read as UTC, which order as the parsed values do. Nothing
/// comes back when the text does not fit the format.
#[verifier::external_body]
fn parse_naive(text: &str, format: &str) -> (r: Option<Stamp>)
    ensures
        r == parsed_naive(text@, format@),
{
    let t = chrono::NaiveDateTime::parse_from_str(text, format).ok()?.and_utc();
    Some(Stamp { secs: t.timestamp(), nanos: t.timestamp_subsec_nanos() })
}

/// Calls `chrono::Local::now` and gives its civil time (`naive_local`) on the
/// scale of `parse_naive`. It depends on the clock and the time zone of the
/// machine, so nothing is promised of it.
#[verifier::external_body]
fn local_now() -> Stamp {
    let t = chrono::Local::now().naive_local().and_utc();
    Stamp { secs: t.timestamp(), nanos: t.timestamp_subsec_nanos() }
}

/// Why a forecast could not be had.
#[derive(Debug)]
pub enum WeatherFetchError {
    /// The request failed or was answered with an error status.
    Http(String),
    /// The answer was not the expected document.
    Json(String),
    /// The weather code table could not be read.
    Io(String),
}

/// The wording of a forecast failure.
pub open spec fn weather_error_text(e: WeatherFetchError) -> Seq<char> {
    match e {
        WeatherFetchError::Http(m) => "HTTP error: "@ + m@,
        WeatherFetchError::Json(m) => "JSON error: "@ + m@,
        WeatherFetchError::Io(m) => "IO error: "@ + m@,
    }
}

impl WeatherFetchError {
    /// The failure in words.
    pub fn message(&self) -> (r: String)
        ensures
            r@ == weather_error_text(*self),
    {
        match self {
            WeatherFetchError::Http(m) => joined("HTTP error: ", m.as_str()),
            WeatherFetchError::Json(m) => joined("JSON error: ", m.as_str()),
            WeatherFetchError::Io(m) => joined("IO error: ", m.as_str()),
        }
    }
}

/// The glyph of the temperature unit.
pub fn unit_symbol(use_celsius: bool) -> (r: &'static str)
    ensures
        r@ == unit_glyph(use_celsius),
{
    if use_celsius {
        "°C"
    } else {
        "°F"
    }
}

/// The address of the hourly forecast for a place, with the unit as a query
/// parameter. Latitude and longitude are decimal numerals.
pub fn forecast_url(lat: &str, lon: &str, use_celsius: bool) -> (r: String)
    ensures
        r@ == forecast_address(lat@, lon@, use_celsius),
{
    let unit = if use_celsius {
        "celsius"
    } else {
        "fahrenheit"
    };
    let mut r = "https://api.open-meteo.com/v1/forecast?latitude=".to_owned();
    r.append(lat);
    r.append("&longitude=");
    r.append(lon);
    r.append(
        "&hourly=temperature_2m,apparent_temperature,precipitation_probability,weather_code,is_day&timezone=auto&forecast_days=1&temperature_unit=",
    );
    r.append(unit);
    r
}

/// The hour-of-day part of a source timestamp.
pub fn hour_of(t: &str) -> (r: String)
    ensures
        r@ == hour_label(t@),
{
    let chars = chars_of(t);
    let mut sep: Vec<char> = Vec::new();
    sep.push('T');
    assert(sep@ =~= seq!['T']);
    match find_in(&chars, &sep, 0) {
        None => "00:00".to_owned(),
        Some(i) => {
            proof {
                crate::text::lemma_find_from_is_first(t@, sep@, 0);
            }
            assert(i + 1 <= chars.len());
            match find_in(&chars, &sep, i + 1) {
                Some(j) => {
                    proof {
                        crate::text::lemma_find_from_is_first(t@, sep@, i + 1);
                    }
                    slice_of(t, i + 1, j)
                },
                None => slice_of(t, i + 1, chars.len()),
            }
        },
    }
}

impl CodeTable {
    /// Description and icon of a weather code by day or night. A code that
    /// the table lacks has a dash for description and no icon; no code is an
    /// error.
    pub fn describe(&self, code: u8, daytime: bool) -> (r: (String, String))
        ensures
            (r.0@, r.1@) == described(self@, code, daytime),
    {
        let key = decimal(code as u64);
        let mut i: usize = 0;
        while i < self.entries.len()
            invariant
                i <= self.entries.len(),
                key@ == decimal_text(code as nat),
                table_line(self@, key@, 0) == table_line(self@, key@, i as int),
            decreases self.entries.len() - i,
        {
            let line = &self.entries[i];
            assert(self@[i as int] == line@);
            if same_text(line.code.as_str(), key.as_str()) {
                if daytime {
                    return (line.meaning.day.description.clone(), line.meaning.day.image.clone());
                } else {
                    return (
                        line.meaning.night.description.clone(),
                        line.meaning.night.image.clone(),
                    );
                }
            }
            i += 1;
        }
        let none = String::new();
        assert(none@ =~= Seq::<char>::empty());
        ("—".to_owned(), none)
    }
}

/// The hour at which the window starts, given the reading of each hour's
/// timestamp: the first hour that is no earlier than `now`, or hour 0 when
/// there is none.
pub fn first_upcoming(stamps: &Vec<Option<Stamp>>, now: Stamp) -> (start: usize)
    ensures
        start == start_hour(stamps@, now),
        stamps@.len() > 0 ==> start < stamps@.len(),
        (exists|i: int| 0 <= i < stamps@.len() && is_upcoming(stamps@[i], now)) ==> is_upcoming(
            stamps@[start as int],
            now,
        ) && forall|j: int| 0 <= j < start ==> !is_upcoming(stamps@[j], now),
{
    let mut i: usize = 0;
    while i < stamps.len()
        invariant
            i <= stamps.len(),
            first_upcoming_from(stamps@, now, 0) == first_upcoming_from(stamps@, now, i as int),
        decreases stamps.len() - i,
    {
        match stamps[i] {
            Some(t) => {
                if t.is_at_or_after(&now) {
                    proof {
                        lemma_first_upcoming(stamps@, now, 0);
                    }
                    return i;
                }
            },
            None => {},
        }
        i += 1;
    }
    proof {
        lemma_first_upcoming(stamps@, now, 0);
    }
    0
}

/// Reads the timestamp of every hour of a series.
pub fn read_hour_stamps(times: &Vec<String>) -> (stamps: Vec<Option<Stamp>>)
    ensures
        stamps@ == hour_stamps(texts(times@)),
{
    let mut stamps: Vec<Option<Stamp>> = Vec::new();
    let mut i: usize = 0;
    while i < times.len()
        invariant
            i <= times.len(),
            stamps@.len() == i,
            forall|k: int|
                0 <= k < i ==> stamps@[k] == parsed_naive(#[trigger] times@[k]@, hour_format()),
        decreases times.len() - i,
    {
        stamps.push(parse_naive(times[i].as_str(), "%Y-%m-%dT%H:%M"));
        i += 1;
    }
    assert(stamps@ =~= hour_stamps(texts(times@)));
    stamps
}

/// The entry of a list of texts at `i`, or `0` where the list is too short.
fn entry_or_zero(v: &Vec<String>, i: usize) -> (r: String)
    ensures
        r@ == text_or_zero(texts(v@), i as int),
{
    if i < v.len() {
        v[i].clone()
    } else {
        "0".to_owned()
    }
}

/// The entry of a list of bytes at `i`, or 0 where the list is too short.
fn value_or_zero(v: &Vec<u8>, i: usize) -> (r: u8)
    ensures
        r == byte_or_zero(v@, i as int),
{
    if i < v.len() {
        v[i]
    } else {
        0
    }
}

/// The wording of hour `i` of a series in a window that starts at `start`.
fn word_hour(hourly: &Hourly, table: &CodeTable, start: usize, i: usize, use_celsius: bool)
    -> (entry: HourForecast)
    requires
        i < hourly.time@.len(),
    ensures
        entry@ == hour_entry(hourly@, table@, start as int, i as int, use_celsius),
{
    let sym = unit_symbol(use_celsius);
    let time = if i == start {
        "Now".to_owned()
    } else {
        hour_of(hourly.time[i].as_str())
    };
    let temp = entry_or_zero(&hourly.temperature, i);
    let feel = entry_or_zero(&hourly.real_feel, i);
    let pct = value_or_zero(&hourly.p_probability, i);
    let code = value_or_zero(&hourly.weather_code, i);
    let daytime = value_or_zero(&hourly.is_day, i) == 1;
    let (description, icon_url) = table.describe(code, daytime);
    let mut real_feel = "Feels ".to_owned();
    real_feel.append(feel.as_str());
    real_feel.append(sym);
    HourForecast {
        time,
        temp: joined(temp.as_str(), sym),
        description,
        real_feel,
        precip: joined(decimal(pct as u64).as_str(), "% precipitation"),
        icon_url,
    }
}

/// The next `count` hours of a series from hour `start` on, worded for
/// display. The first is labelled `Now`; the series' end cuts the window
/// short.
pub fn hours_from(
    hourly: &Hourly,
    table: &CodeTable,
    start: usize,
    count: usize,
    use_celsius: bool,
) -> (out: Vec<HourForecast>)
    ensures
        forecast_views(out@) == hours_window(
            hourly@,
            table@,
            start as int,
            count as int,
            use_celsius,
        ),
{
    let total = hourly.time.len();
    let mut out: Vec<HourForecast> = Vec::new();
    if start >= total {
        assert(forecast_views(out@) =~= hours_window(
            hourly@,
            table@,
            start as int,
            count as int,
            use_celsius,
        ));
        return out;
    }
    let len = if count <= total - start {
        count
    } else {
        total - start
    };
    let mut k: usize = 0;
    while k < len
        invariant
            k <= len,
            start + len <= total,
            total == hourly.time@.len(),
            out@.len() == k,
            forall|n: int|
                0 <= n < k ==> (#[trigger] out@[n])@ == hour_entry(
                    hourly@,
                    table@,
                    start as int,
                    start + n,
                    use_celsius,
                ),
        decreases len - k,
    {
        out.push(word_hour(hourly, table, start, start + k, use_celsius));
        k += 1;
    }
    assert(forecast_views(out@) =~= hours_window(
        hourly@,
        table@,
        start as int,
        count as int,
        use_celsius,
    ));
    out
}

/// The next `count` hours of a series as seen at `now`: the window starts at
/// the first hour that is no earlier than `now`, or at hour 0 when every
/// hour has passed or none can be read.
pub fn next_hours_at(
    hourly: &Hourly,
    table: &CodeTable,
    now: Stamp,
    count: usize,
    use_celsius: bool,
) -> (out: Vec<HourForecast>)
    ensures
        forecast_views(out@) == hours_window(
            hourly@,
            table@,
            start_hour(hour_stamps(hourly@.time), now),
            count as int,
            use_celsius,
        ),
{
    let stamps = read_hour_stamps(&hourly.time);
    let start = first_upcoming(&stamps, now);
    hours_from(hourly, table, start, count, use_celsius)
}

/// The next `count` hours of a series as seen now, by the clock and time
/// zone of the machine.
pub fn next_hours(hourly: &Hourly, table: &CodeTable, count: usize, use_celsius: bool) -> (out:
    Vec<HourForecast>)
    ensures
        exists|now: Stamp|
            forecast_views(out@) == #[trigger] hours_window(
                hourly@,
                table@,
                start_hour(hour_stamps(hourly@.time), now),
                count as int,
                use_celsius,
            ),
{
    let now = local_now();
    next_hours_at(hourly, table, now, count, use_celsius)
}

/// The shape of a window: it holds `count` hours where the series has that
/// many from `start` on, its first hour is labelled `Now`, and its hour `k`
/// is hour `start + k` of the series.
pub proof fn lemma_window_shape(
    hourly: HourlyView,
    table: Seq<CodeEntryView>,
    start: int,
    count: int,
    use_celsius: bool,
)
    requires
        0 <= start,
        0 <= count,
    ensures
        start + count <= hourly.time.len() ==> hours_window(
            hourly,
            table,
            start,
            count,
            use_celsius,
        ).len() == count,
        hours_window(hourly, table, start, count, use_celsius).len() <= count,
        hours_window(hourly, table, start, count, use_celsius).len() > 0 ==> hours_window(
            hourly,
            table,
            start,
            count,
            use_celsius,
        )[0].time == "Now"@,
        forall|k: int|
            0 <= k < hours_window(hourly, table, start, count, use_celsius).len() ==> (
            #[trigger] hours_window(hourly, table, start, count, use_celsius)[k]) == hour_entry(
                hourly,
                table,
                start,
                start + k,
                use_celsius,
            ),
        forall|k: int|
            0 < k < hours_window(hourly, table, start, count, use_celsius).len() ==> (
            #[trigger] hours_window(hourly, table, start, count, use_celsius)[k]).time
                == hour_label(hourly.time[start + k]),
{
}

} // verus!
