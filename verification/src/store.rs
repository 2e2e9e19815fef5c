//! The files of the freshness store: one JSON object per user and domain,
//! replaced as a whole on every successful fetch. A file that is missing or
//! is no record reads as no record. Members that this version does not know
//! are passed over, and the optional ones default when they are missing.

use vstd::prelude::*;
use vstd::string::*;
use crate::cache::{
    news_record_of,
    news_row_views,
    weather_record_of,
    weather_row_views,
    NewsCache,
    NewsCacheView,
    NewsRow,
    NewsRowView,
    WeatherCache,
    WeatherCacheView,
    WeatherRow,
    WeatherRowView,
};
use crate::freshness::clock_now;
use crate::json::{
    get_int,
    get_list,
    get_text,
    get_text_or_empty,
    int_member,
    is_text_member,
    list_member,
    member_from,
    parse_json,
    parsed_json,
    render_json,
    rendered_json,
    text_entry,
    text_member,
    writable,
    text_member_or_empty,
    Json,
    Member,
};

verus! {

/// The weather row that a document is, if it is one: an object with the
/// texts `time`, `temp` and `summary`, and optionally `real_feel`, `precip`
/// and `icon_url`.
pub open spec fn decoded_weather_row(j: Json) -> Option<WeatherRowView> {
    match j {
        Json::Object(ms) => match (
            text_member(ms@, "time"@),
            text_member(ms@, "temp"@),
            text_member(ms@, "summary"@),
            text_member_or_empty(ms@, "real_feel"@),
            text_member_or_empty(ms@, "precip"@),
            text_member_or_empty(ms@, "icon_url"@),
        ) {
            (Some(time), Some(temp), Some(summary), Some(real_feel), Some(precip), Some(icon_url)) => Some(
                WeatherRowView { time, temp, summary, real_feel, precip, icon_url },
            ),
            _ => None,
        },
        _ => None,
    }
}

/// The weather rows that a list of documents is, if each is one.
pub open spec fn decoded_weather_rows(items: Seq<Json>) -> Option<Seq<WeatherRowView>> {
    if forall|i: int| 0 <= i < items.len() ==> (#[trigger] decoded_weather_row(items[i])) is Some {
        Some(Seq::new(items.len(), |i: int| decoded_weather_row(items[i])->Some_0))
    } else {
        None
    }
}

/// The weather record that a document is, if it is one: an object with the
/// whole number `ts` and the list `rows` of weather rows, and optionally the
/// texts `units` and `city`.
pub open spec fn decoded_weather(j: Json) -> Option<WeatherCacheView> {
    match j {
        Json::Object(ms) => match (
            int_member(ms@, "ts"@),
            text_member_or_empty(ms@, "units"@),
            text_member_or_empty(ms@, "city"@),
            list_member(ms@, "rows"@),
        ) {
            (Some(ts), Some(units), Some(city), Some(items)) => match decoded_weather_rows(items) {
                Some(rows) => Some(WeatherCacheView { ts: ts as int, units, city, rows }),
                None => None,
            },
            _ => None,
        },
        _ => None,
    }
}

/// The news row that a document is, if it is one: an object with the texts
/// `title`, `source`, `published` and `url`.
pub open spec fn decoded_news_row(j: Json) -> Option<NewsRowView> {
    match j {
        Json::Object(ms) => match (
            text_member(ms@, "title"@),
            text_member(ms@, "source"@),
            text_member(ms@, "published"@),
            text_member(ms@, "url"@),
        ) {
            (Some(title), Some(source), Some(published), Some(url)) => Some(
                NewsRowView { title, source, published, url },
            ),
            _ => None,
        },
        _ => None,
    }
}

/// The news rows that a list of documents is, if each is one.
pub open spec fn decoded_news_rows(items: Seq<Json>) -> Option<Seq<NewsRowView>> {
    if forall|i: int| 0 <= i < items.len() ==> (#[trigger] decoded_news_row(items[i])) is Some {
        Some(Seq::new(items.len(), |i: int| decoded_news_row(items[i])->Some_0))
    } else {
        None
    }
}

/// The news record that a document is, if it is one: an object with the
/// whole number `ts` and the list `rows` of news rows.
pub open spec fn decoded_news(j: Json) -> Option<NewsCacheView> {
    match j {
        Json::Object(ms) => match (int_member(ms@, "ts"@), list_member(ms@, "rows"@)) {
            (Some(ts), Some(items)) => match decoded_news_rows(items) {
                Some(rows) => Some(NewsCacheView { ts: ts as int, rows }),
                None => None,
            },
            _ => None,
        },
        _ => None,
    }
}

/// Whether a document is the one written for a weather row: an object of
/// its six texts, in the order of the fields.
pub open spec fn is_weather_row_document(j: Json, r: WeatherRowView) -> bool {
    j matches Json::Object(ms) && ms@.len() == 6 && is_text_member(ms@[0], "time"@, r.time)
        && is_text_member(ms@[1], "temp"@, r.temp) && is_text_member(
        ms@[2],
        "summary"@,
        r.summary,
    ) && is_text_member(ms@[3], "real_feel"@, r.real_feel) && is_text_member(
        ms@[4],
        "precip"@,
        r.precip,
    ) && is_text_member(ms@[5], "icon_url"@, r.icon_url)
}

/// Whether a member goes by `key` and holds the whole number `value`.
pub open spec fn is_int_member(m: Member, key: Seq<char>, value: int) -> bool {
    m.key@ == key && (m.value matches Json::Number(Some(n)) && n == value)
}

/// Whether a document is the one written for a weather record: an object of
/// `ts`, `units`, `city` and `rows`, in this order, each row written as a
/// weather row.
pub open spec fn is_weather_document(j: Json, r: WeatherCacheView) -> bool {
    j matches Json::Object(ms) && ms@.len() == 4 && is_int_member(ms@[0], "ts"@, r.ts)
        && is_text_member(ms@[1], "units"@, r.units) && is_text_member(ms@[2], "city"@, r.city)
        && ms@[3].key@ == "rows"@ && (ms@[3].value matches Json::List(items) && items@.len()
        == r.rows.len() && forall|i: int|
        0 <= i < items@.len() ==> is_weather_row_document(#[trigger] items@[i], r.rows[i]))
}

/// Whether a document is the one written for a news row: an object of its
/// four texts, in the order of the fields.
pub open spec fn is_news_row_document(j: Json, r: NewsRowView) -> bool {
    j matches Json::Object(ms) && ms@.len() == 4 && is_text_member(ms@[0], "title"@, r.title)
        && is_text_member(ms@[1], "source"@, r.source) && is_text_member(
        ms@[2],
        "published"@,
        r.published,
    ) && is_text_member(ms@[3], "url"@, r.url)
}

/// Whether a document is the one written for a news record: an object of
/// `ts` and `rows`, in this order, each row written as a news row.
pub open spec fn is_news_document(j: Json, r: NewsCacheView) -> bool {
    j matches Json::Object(ms) && ms@.len() == 2 && is_int_member(ms@[0], "ts"@, r.ts)
        && ms@[1].key@ == "rows"@ && (ms@[1].value matches Json::List(items) && items@.len()
        == r.rows.len() && forall|i: int|
        0 <= i < items@.len() ==> is_news_row_document(#[trigger] items@[i], r.rows[i]))
}

/// The keys of a weather row differ from one another.
proof fn lemma_weather_row_keys()
    ensures
        "time"@ != "temp"@,
        "time"@ != "summary"@,
        "time"@ != "real_feel"@,
        "time"@ != "precip"@,
        "time"@ != "icon_url"@,
        "temp"@ != "summary"@,
        "temp"@ != "real_feel"@,
        "temp"@ != "precip"@,
        "temp"@ != "icon_url"@,
        "summary"@ != "real_feel"@,
        "summary"@ != "precip"@,
        "summary"@ != "icon_url"@,
        "real_feel"@ != "precip"@,
        "real_feel"@ != "icon_url"@,
        "precip"@ != "icon_url"@,
{
    reveal_strlit("time");
    reveal_strlit("temp");
    reveal_strlit("summary");
    reveal_strlit("real_feel");
    reveal_strlit("precip");
    reveal_strlit("icon_url");
    assert("time"@.len() == 4 && "temp"@.len() == 4 && "summary"@.len() == 7);
    assert("real_feel"@.len() == 9 && "precip"@.len() == 6 && "icon_url"@.len() == 8);
    assert("time"@[1] != "temp"@[1]);
}

/// The keys of a record and of a news row differ from one another.
proof fn lemma_record_keys()
    ensures
        "ts"@ != "units"@,
        "ts"@ != "city"@,
        "ts"@ != "rows"@,
        "units"@ != "city"@,
        "units"@ != "rows"@,
        "city"@ != "rows"@,
        "title"@ != "source"@,
        "title"@ != "published"@,
        "title"@ != "url"@,
        "source"@ != "published"@,
        "source"@ != "url"@,
        "published"@ != "url"@,
{
    reveal_strlit("ts");
    reveal_strlit("units");
    reveal_strlit("city");
    reveal_strlit("rows");
    reveal_strlit("title");
    reveal_strlit("source");
    reveal_strlit("published");
    reveal_strlit("url");
    assert("ts"@.len() == 2 && "units"@.len() == 5 && "city"@.len() == 4 && "rows"@.len() == 4);
    assert("title"@.len() == 5 && "source"@.len() == 6 && "published"@.len() == 9);
    assert("url"@.len() == 3);
    assert("city"@[0] != "rows"@[0]);
}

/// A written weather row reads back as the row it was written for.
pub proof fn lemma_weather_row_round_trip(j: Json, r: WeatherRowView)
    requires
        is_weather_row_document(j, r),
    ensures
        decoded_weather_row(j) == Some(r),
{
    lemma_weather_row_keys();
    reveal_with_fuel(member_from, 7);
}

/// A written news row reads back as the row it was written for.
pub proof fn lemma_news_row_round_trip(j: Json, r: NewsRowView)
    requires
        is_news_row_document(j, r),
    ensures
        decoded_news_row(j) == Some(r),
{
    lemma_record_keys();
    reveal_with_fuel(member_from, 5);
}

/// A written weather record reads back as the record it was written for:
/// the same timestamp, unit, city and rows.
pub proof fn lemma_weather_round_trip(j: Json, r: WeatherCacheView)
    requires
        is_weather_document(j, r),
    ensures
        decoded_weather(j) == Some(r),
{
    lemma_record_keys();
    reveal_with_fuel(member_from, 5);
    let ms = j->Object_0;
    let items = ms@[3].value->List_0;
    assert forall|i: int| 0 <= i < items@.len() implies (#[trigger] decoded_weather_row(
        items@[i],
    )) == Some(r.rows[i]) by {
        lemma_weather_row_round_trip(items@[i], r.rows[i]);
    }
    assert(decoded_weather_rows(items@)->Some_0 =~= r.rows);
}

/// A written news record reads back as the record it was written for: the
/// same timestamp and rows.
pub proof fn lemma_news_round_trip(j: Json, r: NewsCacheView)
    requires
        is_news_document(j, r),
    ensures
        decoded_news(j) == Some(r),
{
    lemma_record_keys();
    reveal_with_fuel(member_from, 3);
    let ms = j->Object_0;
    let items = ms@[1].value->List_0;
    assert forall|i: int| 0 <= i < items@.len() implies (#[trigger] decoded_news_row(items@[i]))
        == Some(r.rows[i]) by {
        lemma_news_row_round_trip(items@[i], r.rows[i]);
    }
    assert(decoded_news_rows(items@)->Some_0 =~= r.rows);
}

/// A weather record as a mathematical value, where there is one.
pub open spec fn weather_view(r: Option<WeatherCache>) -> Option<WeatherCacheView> {
    match r {
        Some(c) => Some(c@),
        None => None,
    }
}

/// A news record as a mathematical value, where there is one.
pub open spec fn news_view(r: Option<NewsCache>) -> Option<NewsCacheView> {
    match r {
        Some(c) => Some(c@),
        None => None,
    }
}

/// The weather row that a document is, if it is one.
pub fn decode_weather_row(j: &Json) -> (r: Option<WeatherRow>)
    ensures
        match r {
            Some(row) => decoded_weather_row(*j) == Some(row@),
            None => decoded_weather_row(*j) is None,
        },
{
    match j {
        Json::Object(ms) => {
            let time = get_text(ms, "time");
            let temp = get_text(ms, "temp");
            let summary = get_text(ms, "summary");
            let real_feel = get_text_or_empty(ms, "real_feel");
            let precip = get_text_or_empty(ms, "precip");
            let icon_url = get_text_or_empty(ms, "icon_url");
            match (time, temp, summary, real_feel, precip, icon_url) {
                (
                    Some(time),
                    Some(temp),
                    Some(summary),
                    Some(real_feel),
                    Some(precip),
                    Some(icon_url),
                ) => Some(WeatherRow { time, temp, summary, real_feel, precip, icon_url }),
                _ => None,
            }
        },
        _ => None,
    }
}

/// The news row that a document is, if it is one.
pub fn decode_news_row(j: &Json) -> (r: Option<NewsRow>)
    ensures
        match r {
            Some(row) => decoded_news_row(*j) == Some(row@),
            None => decoded_news_row(*j) is None,
        },
{
    match j {
        Json::Object(ms) => {
            let title = get_text(ms, "title");
            let source = get_text(ms, "source");
            let published = get_text(ms, "published");
            let url = get_text(ms, "url");
            match (title, source, published, url) {
                (Some(title), Some(source), Some(published), Some(url)) => Some(
                    NewsRow { title, source, published, url },
                ),
                _ => None,
            }
        },
        _ => None,
    }
}

/// The weather rows that a list of documents is, if each is one.
fn decode_weather_rows(items: &Vec<Json>) -> (r: Option<Vec<WeatherRow>>)
    ensures
        match r {
            Some(rows) => decoded_weather_rows(items@) == Some(weather_row_views(rows@)),
            None => decoded_weather_rows(items@) is None,
        },
{
    let mut rows: Vec<WeatherRow> = Vec::new();
    let mut i: usize = 0;
    while i < items.len()
        invariant
            i <= items.len(),
            rows@.len() == i,
            forall|k: int|
                0 <= k < i ==> (#[trigger] decoded_weather_row(items@[k])) == Some(rows@[k]@),
        decreases items.len() - i,
    {
        match decode_weather_row(&items[i]) {
            Some(row) => {
                rows.push(row);
            },
            None => {
                return None;
            },
        }
        i += 1;
    }
    assert(decoded_weather_rows(items@)->Some_0 =~= weather_row_views(rows@));
    Some(rows)
}

/// The news rows that a list of documents is, if each is one.
fn decode_news_rows(items: &Vec<Json>) -> (r: Option<Vec<NewsRow>>)
    ensures
        match r {
            Some(rows) => decoded_news_rows(items@) == Some(news_row_views(rows@)),
            None => decoded_news_rows(items@) is None,
        },
{
    let mut rows: Vec<NewsRow> = Vec::new();
    let mut i: usize = 0;
    while i < items.len()
        invariant
            i <= items.len(),
            rows@.len() == i,
            forall|k: int|
                0 <= k < i ==> (#[trigger] decoded_news_row(items@[k])) == Some(rows@[k]@),
        decreases items.len() - i,
    {
        match decode_news_row(&items[i]) {
            Some(row) => {
                rows.push(row);
            },
            None => {
                return None;
            },
        }
        i += 1;
    }
    assert(decoded_news_rows(items@)->Some_0 =~= news_row_views(rows@));
    Some(rows)
}

/// The weather record that a document is, if it is one.
pub fn decode_weather(j: &Json) -> (r: Option<WeatherCache>)
    ensures
        weather_view(r) == decoded_weather(*j),
{
    match j {
        Json::Object(ms) => {
            let ts = get_int(ms, "ts");
            let units = get_text_or_empty(ms, "units");
            let city = get_text_or_empty(ms, "city");
            let items = get_list(ms, "rows");
            match (ts, units, city, items) {
                (Some(ts), Some(units), Some(city), Some(items)) => match decode_weather_rows(
                    items,
                ) {
                    Some(rows) => Some(WeatherCache { ts, units, city, rows }),
                    None => None,
                },
                _ => None,
            }
        },
        _ => None,
    }
}

/// The news record that a document is, if it is one.
pub fn decode_news(j: &Json) -> (r: Option<NewsCache>)
    ensures
        news_view(r) == decoded_news(*j),
{
    match j {
        Json::Object(ms) => {
            let ts = get_int(ms, "ts");
            let items = get_list(ms, "rows");
            match (ts, items) {
                (Some(ts), Some(items)) => match decode_news_rows(items) {
                    Some(rows) => Some(NewsCache { ts, rows }),
                    None => None,
                },
                _ => None,
            }
        },
        _ => None,
    }
}

/// The document written for a weather row.
pub fn encode_weather_row(row: &WeatherRow) -> (j: Json)
    ensures
        is_weather_row_document(j, row@),
        writable(j),
{
    proof {
        reveal_with_fuel(writable, 3);
    }
    let mut ms: Vec<Member> = Vec::new();
    ms.push(text_entry("time", row.time.as_str()));
    ms.push(text_entry("temp", row.temp.as_str()));
    ms.push(text_entry("summary", row.summary.as_str()));
    ms.push(text_entry("real_feel", row.real_feel.as_str()));
    ms.push(text_entry("precip", row.precip.as_str()));
    ms.push(text_entry("icon_url", row.icon_url.as_str()));
    Json::Object(ms)
}

/// The document written for a news row.
pub fn encode_news_row(row: &NewsRow) -> (j: Json)
    ensures
        is_news_row_document(j, row@),
        writable(j),
{
    proof {
        reveal_with_fuel(writable, 3);
    }
    let mut ms: Vec<Member> = Vec::new();
    ms.push(text_entry("title", row.title.as_str()));
    ms.push(text_entry("source", row.source.as_str()));
    ms.push(text_entry("published", row.published.as_str()));
    ms.push(text_entry("url", row.url.as_str()));
    Json::Object(ms)
}

/// The document written for a weather record.
pub fn encode_weather(record: &WeatherCache) -> (j: Json)
    ensures
        is_weather_document(j, record@),
        writable(j),
{
    proof {
        reveal_with_fuel(writable, 3);
    }
    let mut items: Vec<Json> = Vec::new();
    let mut i: usize = 0;
    while i < record.rows.len()
        invariant
            i <= record.rows.len(),
            items@.len() == i,
            forall|k: int|
                0 <= k < i ==> is_weather_row_document(#[trigger] items@[k], record.rows@[k]@),
            forall|k: int| 0 <= k < i ==> writable(#[trigger] items@[k]),
        decreases record.rows.len() - i,
    {
        items.push(encode_weather_row(&record.rows[i]));
        i += 1;
    }
    let mut ms: Vec<Member> = Vec::new();
    ms.push(Member { key: "ts".to_owned(), value: Json::Number(Some(record.ts)) });
    ms.push(text_entry("units", record.units.as_str()));
    ms.push(text_entry("city", record.city.as_str()));
    ms.push(Member { key: "rows".to_owned(), value: Json::List(items) });
    Json::Object(ms)
}

/// The document written for a news record.
pub fn encode_news(record: &NewsCache) -> (j: Json)
    ensures
        is_news_document(j, record@),
        writable(j),
{
    proof {
        reveal_with_fuel(writable, 3);
    }
    let mut items: Vec<Json> = Vec::new();
    let mut i: usize = 0;
    while i < record.rows.len()
        invariant
            i <= record.rows.len(),
            items@.len() == i,
            forall|k: int|
                0 <= k < i ==> is_news_row_document(#[trigger] items@[k], record.rows@[k]@),
            forall|k: int| 0 <= k < i ==> writable(#[trigger] items@[k]),
        decreases record.rows.len() - i,
    {
        items.push(encode_news_row(&record.rows[i]));
        i += 1;
    }
    let mut ms: Vec<Member> = Vec::new();
    ms.push(Member { key: "ts".to_owned(), value: Json::Number(Some(record.ts)) });
    ms.push(Member { key: "rows".to_owned(), value: Json::List(items) });
    Json::Object(ms)
}

/// What the content of a weather file reads as: the record of the document
/// that the content is. No content, content that is no JSON and a document
/// that is no weather record all read as no record.
pub open spec fn weather_read(content: Option<Seq<char>>) -> Option<WeatherCacheView> {
    match content {
        Some(text) => match parsed_json(text) {
            Some(doc) => decoded_weather(doc),
            None => None,
        },
        None => None,
    }
}

/// What the content of a news file reads as.
pub open spec fn news_read(content: Option<Seq<char>>) -> Option<NewsCacheView> {
    match content {
        Some(text) => match parsed_json(text) {
            Some(doc) => decoded_news(doc),
            None => None,
        },
        None => None,
    }
}

/// The characters of an optional text.
pub open spec fn content_view(content: Option<&str>) -> Option<Seq<char>> {
    match content {
        Some(text) => Some(text@),
        None => None,
    }
}

/// Reads a weather record from the content of its file, `None` standing for
/// a file that is missing or unreadable. Whatever the content, the caller
/// gets a record or none, never a failure.
pub fn read_weather(content: Option<&str>) -> (r: Option<WeatherCache>)
    ensures
        weather_view(r) == weather_read(content_view(content)),
{
    match content {
        Some(text) => match parse_json(text) {
            Some(doc) => decode_weather(&doc),
            None => None,
        },
        None => None,
    }
}

/// Reads a news record from the content of its file, `None` standing for a
/// file that is missing or unreadable.
pub fn read_news(content: Option<&str>) -> (r: Option<NewsCache>)
    ensures
        news_view(r) == news_read(content_view(content)),
{
    match content {
        Some(text) => match parse_json(text) {
            Some(doc) => decode_news(&doc),
            None => None,
        },
        None => None,
    }
}

/// The content of the file that keeps a weather record: the text of the
/// document written for it.
pub fn write_weather(record: &WeatherCache) -> (text: String)
    ensures
        exists|doc: Json| is_weather_document(doc, record@) && text@ == #[trigger] rendered_json(doc),
{
    let doc = encode_weather(record);
    render_json(&doc)
}

/// The content of the file that keeps a news record: the text of the
/// document written for it.
pub fn write_news(record: &NewsCache) -> (text: String)
    ensures
        exists|doc: Json| is_news_document(doc, record@) && text@ == #[trigger] rendered_json(doc),
{
    let doc = encode_news(record);
    render_json(&doc)
}

/// The record of a weather fetch that succeeded just now, by the machine's
/// clock: the rows under the unit and the lower-case city of the request.
pub fn record_weather(rows: Vec<WeatherRow>, use_celsius: bool, city: &str) -> (record:
    WeatherCache)
    ensures
        exists|now: i64|
            record@ == #[trigger] weather_record_of(
                weather_row_views(rows@),
                use_celsius,
                city@,
                now as int,
            ),
{
    let now = clock_now();
    WeatherCache::new(rows, use_celsius, city, now)
}

/// The record of a news fetch that succeeded just now, by the machine's
/// clock.
pub fn record_news(rows: Vec<NewsRow>) -> (record: NewsCache)
    ensures
        exists|now: i64|
            record@ == #[trigger] news_record_of(news_row_views(rows@), now as int),
{
    let now = clock_now();
    NewsCache::new(rows, now)
}

} // verus!
