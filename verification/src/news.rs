//! The article search: where to ask, how a search result becomes a row, and
//! how every row gets a thumbnail.

use vstd::prelude::*;
use vstd::string::*;
use vstd::utf8::encode_utf8;
use crate::cache::{news_row_views, NewsRow, NewsRowView};
use crate::text::{
    ascii_folded,
    chars_of,
    eq_ignore_ascii_case,
    find_from,
    find_in,
    joined,
    lemma_find_from_is_first,
    opt_text,
    percent_encode,
    percent_encoded,
    same_text,
    slice_of,
};
use crate::thumbnail::{
    outcome_view,
    picture_or,
    thumbnail_or_placeholder,
    Picture,
    Thumbnail,
    ThumbnailError,
};

verus! {

/// Why a search could not be had.
#[derive(Debug)]
pub enum NewsFetchError {
    /// The request failed or was answered with an error status.
    Http(String),
    /// The answer was not the expected document.
    Json(String),
}

/// The wording of a search failure.
pub open spec fn news_error_text(e: NewsFetchError) -> Seq<char> {
    match e {
        NewsFetchError::Http(m) => "HTTP error: "@ + m@,
        NewsFetchError::Json(m) => "JSON error: "@ + m@,
    }
}

impl NewsFetchError {
    /// The failure in words.
    pub fn message(&self) -> (r: String)
        ensures
            r@ == news_error_text(*self),
    {
        match self {
            NewsFetchError::Http(m) => joined("HTTP error: ", m.as_str()),
            NewsFetchError::Json(m) => joined("JSON error: ", m.as_str()),
        }
    }
}

/// One result of the search service. Any of its parts may be missing.
#[derive(Debug)]
pub struct Hit {
    pub title: Option<String>,
    pub url: Option<String>,
    pub created_at: Option<String>,
    pub object_id: Option<String>,
}

/// A search result as a mathematical value.
pub struct HitView {
    pub title: Option<Seq<char>>,
    pub url: Option<Seq<char>>,
    pub created_at: Option<Seq<char>>,
    pub object_id: Option<Seq<char>>,
}

impl View for Hit {
    type V = HitView;

    open spec fn view(&self) -> HitView {
        HitView {
            title: opt_text(self.title),
            url: opt_text(self.url),
            created_at: opt_text(self.created_at),
            object_id: opt_text(self.object_id),
        }
    }
}

/// An article with its thumbnail.
#[derive(Debug)]
pub struct Article {
    pub title: String,
    pub source: String,
    pub published: String,
    pub url: String,
    pub thumbnail: Thumbnail,
}

/// An article as a mathematical value.
pub struct ArticleView {
    pub row: NewsRowView,
    pub thumbnail: Picture,
}

impl View for Article {
    type V = ArticleView;

    open spec fn view(&self) -> ArticleView {
        ArticleView {
            row: NewsRowView {
                title: self.title@,
                source: self.source@,
                published: self.published@,
                url: self.url@,
            },
            thumbnail: self.thumbnail@,
        }
    }
}

/// The articles of a list as mathematical values.
pub open spec fn article_views(v: Seq<Article>) -> Seq<ArticleView> {
    Seq::new(v.len(), |i: int| v[i]@)
}

/// Whether a character is white space: one of the 25 characters with the
/// Unicode property `White_Space`.
pub open spec fn is_white_space(c: char) -> bool {
    let n = c as u32;
    (0x09 <= n <= 0x0D) || n == 0x20 || n == 0x85 || n == 0xA0 || n == 0x1680 || (0x2000 <= n
        <= 0x200A) || n == 0x2028 || n == 0x2029 || n == 0x202F || n == 0x205F || n == 0x3000
}

/// Whether a text holds nothing but white space.
pub open spec fn is_blank(s: Seq<char>) -> bool {
    forall|i: int| 0 <= i < s.len() ==> is_white_space(#[trigger] s[i])
}

/// Whether a topic asks for the front page: a blank topic does, and so does
/// `Top Stories` in any ASCII case.
pub open spec fn wants_front_page(topic: Seq<char>) -> bool {
    is_blank(topic) || ascii_folded(topic) == ascii_folded("Top Stories"@)
}

/// The address that answers a search for a topic: the front-page listing, or
/// a keyword search with the topic percent-encoded.
pub open spec fn search_address(topic: Seq<char>) -> Seq<char> {
    if wants_front_page(topic) {
        "https://hn.algolia.com/api/v1/search?tags=front_page"@
    } else {
        "https://hn.algolia.com/api/v1/search?query="@ + percent_encoded(encode_utf8(topic))
            + "&tags=story"@
    }
}

/// The host of an address: what follows its first `://` (the whole address
/// when it has none) up to the next `/`.
pub open spec fn host_of(url: Seq<char>) -> Seq<char> {
    let start = match find_from(url, "://"@, 0) {
        Some(i) => i + 3,
        None => 0,
    };
    match find_from(url, "/"@, start) {
        Some(j) => url.subrange(start, j),
        None => url.subrange(start, url.len() as int),
    }
}

/// The address of a search result: its own, else the item page of its
/// identifier, else the site's front page.
pub open spec fn hit_url(hit: HitView) -> Seq<char> {
    match hit.url {
        Some(u) => u,
        None => match hit.object_id {
            Some(id) => "https://news.ycombinator.com/item?id="@ + id,
            None => "https://news.ycombinator.com/"@,
        },
    }
}

/// The row of a search result, given its creation time in local wording
/// where that could be had.
pub open spec fn hit_row(hit: HitView, local: Option<Seq<char>>) -> NewsRowView {
    NewsRowView {
        title: match hit.title {
            Some(t) => t,
            None => "Untitled"@,
        },
        source: host_of(hit_url(hit)),
        published: match local {
            Some(t) => t,
            None => match hit.created_at {
                Some(raw) => raw,
                None => Seq::empty(),
            },
        },
        url: hit_url(hit),
    }
}

/// The format in which creation times are worded.
pub open spec fn minute_format() -> Seq<char> {
    "%Y-%m-%d %H:%M"@
}

/// Whether a text is a date and time in the form of RFC 3339.
pub uninterp spec fn is_rfc3339(text: Seq<char>) -> bool;

/// How chrono words an RFC 3339 date and time under a format, seen from a
/// time zone that is `offset_secs` seconds east of UTC. There is no wording
/// for a text that is no RFC 3339 date and time, nor for an offset of a day
/// or more.
pub uninterp spec fn worded_time(timestamp: Seq<char>, offset_secs: int, format: Seq<char>)
    -> Option<Seq<char>>;

/// Whether a number of seconds can be a time zone's distance from UTC: it
/// must be less than a day, either way.
pub open spec fn is_zone_offset(offset_secs: int) -> bool {
    -86_400 < offset_secs < 86_400
}

/// Calls `chrono::DateTime::parse_from_rfc3339`, moves the result into the
/// machine's time zone (`with_timezone` with `chrono::Local`) and gives that
/// zone's distance from UTC at that moment (`FixedOffset::local_minus_utc`).
/// A text that is no RFC 3339 date and time gives nothing. The distance
/// depends on the machine's time zone, so it is not told; it is always less
/// than a day.
#[verifier::external_body]
fn local_offset_at(timestamp: &str) -> (r: Option<i32>)
    ensures
        r is Some <==> is_rfc3339(timestamp@),
        r matches Some(secs) ==> is_zone_offset(secs as int),
{
    let t = chrono::DateTime::parse_from_rfc3339(timestamp).ok()?;
    Some(t.with_timezone(&chrono::Local).offset().local_minus_utc())
}

/// Calls `chrono::DateTime::parse_from_rfc3339`, moves the result into the
/// time zone at the given distance from UTC (`FixedOffset::east_opt`,
/// `with_timezone`) and words it with `DateTime::format`. The wording
/// depends on the three arguments alone, and there is one for every RFC 3339
/// date and time under every distance of less than a day.
#[verifier::external_body]
fn word_time(timestamp: &str, offset_secs: i32, format: &str) -> (r: Option<String>)
    requires
        format@ == minute_format(),
    ensures
        opt_text(r) == worded_time(timestamp@, offset_secs as int, format@),
        is_rfc3339(timestamp@) && is_zone_offset(offset_secs as int) ==> r is Some,
{
    let t = chrono::DateTime::parse_from_rfc3339(timestamp).ok()?;
    let zone = chrono::FixedOffset::east_opt(offset_secs)?;
    Some(t.with_timezone(&zone).format(format).to_string())
}

/// Whether a character is white space.
pub fn white_space(c: char) -> (r: bool)
    ensures
        r == is_white_space(c),
{
    let n: u32 = c as u32;
    (0x09 <= n && n <= 0x0D) || n == 0x20 || n == 0x85 || n == 0xA0 || n == 0x1680 || (0x2000 <= n
        && n <= 0x200A) || n == 0x2028 || n == 0x2029 || n == 0x202F || n == 0x205F || n == 0x3000
}

/// Whether a text holds nothing but white space.
pub fn blank(s: &str) -> (r: bool)
    ensures
        r == is_blank(s@),
{
    let chars = chars_of(s);
    let mut i: usize = 0;
    while i < chars.len()
        invariant
            i <= chars.len(),
            chars@ == s@,
            forall|k: int| 0 <= k < i ==> is_white_space(#[trigger] chars@[k]),
        decreases chars.len() - i,
    {
        if !white_space(chars[i]) {
            return false;
        }
        i += 1;
    }
    true
}

/// The address that answers a search for a topic.
pub fn search_url(topic: &str) -> (r: String)
    ensures
        r@ == search_address(topic@),
{
    if blank(topic) || eq_ignore_ascii_case(topic, "Top Stories") {
        "https://hn.algolia.com/api/v1/search?tags=front_page".to_owned()
    } else {
        let mut r = "https://hn.algolia.com/api/v1/search?query=".to_owned();
        r.append(percent_encode(topic).as_str());
        r.append("&tags=story");
        r
    }
}

/// The host of an address.
pub fn host_from_url(url: &str) -> (host: String)
    ensures
        host@ == host_of(url@),
{
    proof {
        reveal_strlit("://");
        reveal_strlit("/");
    }
    let chars = chars_of(url);
    let scheme_end = chars_of("://");
    let slash = chars_of("/");
    let start: usize = match find_in(&chars, &scheme_end, 0) {
        Some(i) => {
            proof {
                lemma_find_from_is_first(url@, "://"@, 0);
            }
            assert(i + 3 <= chars.len());
            i + 3
        },
        None => 0,
    };
    match find_in(&chars, &slash, start) {
        Some(j) => {
            proof {
                lemma_find_from_is_first(url@, "/"@, start as int);
            }
            slice_of(url, start, j)
        },
        None => slice_of(url, start, chars.len()),
    }
}

/// The row of a search result, given its creation time in local wording
/// where that could be had. A missing title reads `Untitled`; a missing
/// address is the item page of the identifier, or the site's front page; the
/// source is the host of the address; without local wording the creation
/// time stands as it came, or empty.
pub fn row_from_hit(hit: &Hit, local: Option<String>) -> (row: NewsRow)
    ensures
        row@ == hit_row(hit@, opt_text(local)),
{
    let title = match &hit.title {
        Some(t) => t.clone(),
        None => "Untitled".to_owned(),
    };
    let url = match &hit.url {
        Some(u) => u.clone(),
        None => match &hit.object_id {
            Some(id) => joined("https://news.ycombinator.com/item?id=", id.as_str()),
            None => "https://news.ycombinator.com/".to_owned(),
        },
    };
    let source = host_from_url(url.as_str());
    let published = match local {
        Some(t) => t,
        None => match &hit.created_at {
            Some(raw) => raw.clone(),
            None => {
                let empty = String::new();
                assert(empty@ =~= Seq::<char>::empty());
                empty
            },
        },
    };
    NewsRow { title, source, published, url }
}

/// Whether a creation time can be worded locally: it must be there and be an
/// RFC 3339 date and time.
pub open spec fn has_local_time(hit: HitView) -> bool {
    hit.created_at matches Some(raw) && is_rfc3339(raw)
}

/// The creation time of a search result as worded to the minute in a time
/// zone `offset_secs` seconds east of UTC, where it is an RFC 3339 date and
/// time.
pub open spec fn local_wording(hit: HitView, offset_secs: int) -> Option<Seq<char>> {
    match hit.created_at {
        Some(raw) => if is_rfc3339(raw) {
            worded_time(raw, offset_secs, minute_format())
        } else {
            None
        },
        None => None,
    }
}

/// Whether `row` is the row of `hit` as seen from some time zone: its
/// creation time is worded to the minute in that zone exactly when it is an
/// RFC 3339 date and time, and stands as it came otherwise.
pub open spec fn is_row_of(row: NewsRowView, hit: HitView) -> bool {
    exists|offset_secs: int|
        #![trigger local_wording(hit, offset_secs)]
        is_zone_offset(offset_secs) && (local_wording(hit, offset_secs) is Some
            <==> has_local_time(hit)) && row == hit_row(hit, local_wording(hit, offset_secs))
}

/// The creation time of a search result as chrono words it to the minute
/// in a time zone `offset_secs` seconds east of UTC.
pub open spec fn zone_wording(hit: HitView, offset_secs: int) -> Option<Seq<char>> {
    match hit.created_at {
        Some(raw) => worded_time(raw, offset_secs, minute_format()),
        None => None,
    }
}

/// The row of a search result as seen from a time zone `offset_secs`
/// seconds east of UTC: its creation time is worded as `YYYY-MM-DD HH:MM` in
/// that zone where there is such a wording, and stands as it came
/// otherwise. There is a wording for every RFC 3339 date and time under
/// every distance of less than a day.
pub fn row_in_zone(hit: &Hit, offset_secs: i32) -> (row: NewsRow)
    ensures
        row@ == hit_row(hit@, zone_wording(hit@, offset_secs as int)),
        has_local_time(hit@) && is_zone_offset(offset_secs as int) ==> zone_wording(
            hit@,
            offset_secs as int,
        ) is Some,
{
    let local = match &hit.created_at {
        Some(raw) => word_time(raw.as_str(), offset_secs, "%Y-%m-%d %H:%M"),
        None => None,
    };
    row_from_hit(hit, local)
}

/// The row of a search result, its creation time worded in the machine's
/// time zone as `YYYY-MM-DD HH:MM` where it is an RFC 3339 date and time.
pub fn row_of_hit(hit: &Hit) -> (row: NewsRow)
    ensures
        is_row_of(row@, hit@),
{
    let offset = match &hit.created_at {
        Some(raw) => local_offset_at(raw.as_str()),
        None => None,
    };
    match offset {
        Some(secs) => {
            let row = row_in_zone(hit, secs);
            assert(local_wording(hit@, secs as int) == zone_wording(hit@, secs as int));
            assert(is_zone_offset(secs as int) && (local_wording(hit@, secs as int) is Some
                <==> has_local_time(hit@)) && row@ == hit_row(
                hit@,
                local_wording(hit@, secs as int),
            ));
            row
        },
        None => {
            let row = row_from_hit(hit, None);
            assert(is_zone_offset(0) && (local_wording(hit@, 0) is Some <==> has_local_time(hit@))
                && row@ == hit_row(hit@, local_wording(hit@, 0)));
            row
        },
    }
}

/// How many of `total` results a request for `count` takes.
pub open spec fn taken(total: int, count: int) -> int {
    if count < total {
        count
    } else {
        total
    }
}

/// The rows of the first `count` search results, in search order.
pub fn rows_from_hits(hits: &Vec<Hit>, count: usize) -> (rows: Vec<NewsRow>)
    ensures
        rows@.len() == taken(hits@.len() as int, count as int),
        forall|i: int| 0 <= i < rows@.len() ==> is_row_of(#[trigger] rows@[i]@, hits@[i]@),
{
    let n = if count < hits.len() {
        count
    } else {
        hits.len()
    };
    let mut rows: Vec<NewsRow> = Vec::new();
    let mut i: usize = 0;
    while i < n
        invariant
            i <= n <= hits.len(),
            rows@.len() == i,
            forall|k: int| 0 <= k < i ==> is_row_of(#[trigger] rows@[k]@, hits@[k]@),
        decreases n - i,
    {
        rows.push(row_of_hit(&hits[i]));
        i += 1;
    }
    rows
}

/// The outcomes of a list of thumbnail downloads as mathematical values.
pub open spec fn outcome_views(v: Seq<Result<Thumbnail, ThumbnailError>>) -> Seq<
    Result<Picture, ThumbnailError>,
> {
    Seq::new(v.len(), |i: int| outcome_view(v[i]))
}

/// Row `i` with its thumbnail: the downloaded one when there is an outcome
/// for the row and it is a success, else the placeholder.
pub open spec fn enriched_row(
    rows: Seq<NewsRowView>,
    outcomes: Seq<Result<Picture, ThumbnailError>>,
    placeholder: Picture,
    i: int,
) -> ArticleView {
    ArticleView {
        row: rows[i],
        thumbnail: if i < outcomes.len() {
            picture_or(outcomes[i], placeholder)
        } else {
            placeholder
        },
    }
}

/// Every row with its thumbnail, in the order of the rows.
pub open spec fn enriched(
    rows: Seq<NewsRowView>,
    outcomes: Seq<Result<Picture, ThumbnailError>>,
    placeholder: Picture,
) -> Seq<ArticleView> {
    Seq::new(rows.len(), |i: int| enriched_row(rows, outcomes, placeholder, i))
}

/// Gives every row its thumbnail. `outcomes[i]` is how the download for row
/// `i` ended; a row whose download failed, or for which no outcome is there,
/// carries the placeholder. Every row comes out exactly once, in the order
/// of the rows.
pub fn enrich(
    rows: Vec<NewsRow>,
    outcomes: Vec<Result<Thumbnail, ThumbnailError>>,
    placeholder: &Thumbnail,
) -> (articles: Vec<Article>)
    ensures
        article_views(articles@) == enriched(
            news_row_views(rows@),
            outcome_views(outcomes@),
            placeholder@,
        ),
        articles@.len() == rows@.len(),
{
    let ghost row_seq = news_row_views(rows@);
    let ghost outcome_seq = outcome_views(outcomes@);
    let mut pending_rows = rows;
    let mut pending_outcomes = outcomes;
    let mut reversed: Vec<Article> = Vec::new();
    let total = pending_rows.len();
    while pending_outcomes.len() > total
        invariant
            total <= pending_outcomes@.len() || pending_outcomes@.len() == outcome_seq.len(),
            pending_outcomes@.len() <= outcome_seq.len(),
            forall|k: int|
                0 <= k < pending_outcomes@.len() ==> outcome_view(#[trigger] pending_outcomes@[k])
                    == outcome_seq[k],
        decreases pending_outcomes.len(),
    {
        pending_outcomes.pop();
    }
    while pending_rows.len() > 0
        invariant
            total == row_seq.len(),
            pending_rows@.len() <= total,
            pending_outcomes@.len() == taken(
                pending_rows@.len() as int,
                outcome_seq.len() as int,
            ),
            forall|k: int|
                0 <= k < pending_outcomes@.len() ==> outcome_view(#[trigger] pending_outcomes@[k])
                    == outcome_seq[k],
            forall|k: int|
                0 <= k < pending_rows@.len() ==> (#[trigger] pending_rows@[k])@ == row_seq[k],
            reversed@.len() == total - pending_rows@.len(),
            forall|k: int|
                0 <= k < reversed@.len() ==> (#[trigger] reversed@[k])@ == enriched_row(
                    row_seq,
                    outcome_seq,
                    placeholder@,
                    total - 1 - k,
                ),
        decreases pending_rows.len(),
    {
        let i = pending_rows.len() - 1;
        let row = pending_rows.pop().unwrap();
        let thumbnail = if pending_outcomes.len() > i {
            let outcome = pending_outcomes.pop().unwrap();
            thumbnail_or_placeholder(outcome, placeholder)
        } else {
            placeholder.duplicate()
        };
        let article = Article {
            title: row.title,
            source: row.source,
            published: row.published,
            url: row.url,
            thumbnail,
        };
        assert(article@ == enriched_row(row_seq, outcome_seq, placeholder@, i as int));
        reversed.push(article);
    }
    let mut articles: Vec<Article> = Vec::new();
    while reversed.len() > 0
        invariant
            reversed@.len() + articles@.len() == total,
            total == row_seq.len(),
            forall|k: int|
                0 <= k < reversed@.len() ==> (#[trigger] reversed@[k])@ == enriched_row(
                    row_seq,
                    outcome_seq,
                    placeholder@,
                    total - 1 - k,
                ),
            forall|k: int|
                0 <= k < articles@.len() ==> (#[trigger] articles@[k])@ == enriched_row(
                    row_seq,
                    outcome_seq,
                    placeholder@,
                    k,
                ),
        decreases reversed.len(),
    {
        let article = reversed.pop().unwrap();
        articles.push(article);
    }
    assert(article_views(articles@) =~= enriched(row_seq, outcome_seq, placeholder@));
    articles
}

/// The thumbnail downloads of one search as they land, in whatever order:
/// one slot per row, filled once.
#[derive(Debug)]
pub struct Gathering {
    pub slots: Vec<Option<Result<Thumbnail, ThumbnailError>>>,
}

/// The slots of a gathering as mathematical values.
pub open spec fn slot_views(v: Seq<Option<Result<Thumbnail, ThumbnailError>>>) -> Seq<
    Option<Result<Picture, ThumbnailError>>,
> {
    Seq::new(
        v.len(),
        |i: int|
            match v[i] {
                Some(outcome) => Some(outcome_view(outcome)),
                None => None,
            },
    )
}

/// The slots after a download landed for row `index`: the outcome fills the
/// row's slot if the row is there and its slot is empty; else nothing
/// changes.
pub open spec fn landed(
    slots: Seq<Option<Result<Picture, ThumbnailError>>>,
    index: int,
    outcome: Result<Picture, ThumbnailError>,
) -> Seq<Option<Result<Picture, ThumbnailError>>> {
    if 0 <= index < slots.len() && slots[index] is None {
        slots.update(index, Some(outcome))
    } else {
        slots
    }
}

/// The outcomes that a gathering comes to: what landed for each row, and a
/// page that could not be had for a row for which nothing landed.
pub open spec fn gathered(slots: Seq<Option<Result<Picture, ThumbnailError>>>) -> Seq<
    Result<Picture, ThumbnailError>,
> {
    Seq::new(
        slots.len(),
        |i: int|
            match slots[i] {
                Some(outcome) => outcome,
                None => Err(ThumbnailError::PageUnavailable),
            },
    )
}

impl View for Gathering {
    type V = Seq<Option<Result<Picture, ThumbnailError>>>;

    open spec fn view(&self) -> Seq<Option<Result<Picture, ThumbnailError>>> {
        slot_views(self.slots@)
    }
}

impl Gathering {
    /// A gathering for `count` rows, with nothing landed yet.
    pub fn new(count: usize) -> (g: Gathering)
        ensures
            g@.len() == count,
            forall|i: int| 0 <= i < count ==> (#[trigger] g@[i]) is None,
    {
        let mut slots: Vec<Option<Result<Thumbnail, ThumbnailError>>> = Vec::new();
        let mut i: usize = 0;
        while i < count
            invariant
                i <= count,
                slots@.len() == i,
                forall|k: int| 0 <= k < i ==> (#[trigger] slots@[k]) is None,
            decreases count - i,
        {
            slots.push(None);
            i += 1;
        }
        Gathering { slots }
    }

    /// A download landed for row `index`. The first outcome for a row is
    /// taken; a second one, or one for a row that is not there, is dropped.
    /// Tells whether the outcome was taken.
    pub fn land(&mut self, index: usize, outcome: Result<Thumbnail, ThumbnailError>) -> (taken:
        bool)
        ensures
            final(self)@ == landed(old(self)@, index as int, outcome_view(outcome)),
            taken == (index < old(self)@.len() && old(self)@[index as int] is None),
    {
        if index < self.slots.len() && self.slots[index].is_none() {
            self.slots.set(index, Some(outcome));
            assert(final(self)@ =~= landed(old(self)@, index as int, outcome_view(outcome)));
            true
        } else {
            false
        }
    }

    /// Whether a download has landed for every row.
    pub fn is_complete(&self) -> (done: bool)
        ensures
            done == (forall|i: int| 0 <= i < self@.len() ==> (#[trigger] self@[i]) is Some),
    {
        let mut i: usize = 0;
        while i < self.slots.len()
            invariant
                i <= self.slots.len(),
                forall|k: int| 0 <= k < i ==> (#[trigger] self@[k]) is Some,
            decreases self.slots.len() - i,
        {
            if self.slots[i].is_none() {
                assert(self@[i as int] is None);
                return false;
            }
            i += 1;
        }
        true
    }

    /// The outcomes by row: what landed for each, and a page that could not
    /// be had for a row for which nothing landed.
    pub fn into_outcomes(self) -> (outcomes: Vec<Result<Thumbnail, ThumbnailError>>)
        ensures
            outcome_views(outcomes@) == gathered(self@),
    {
        let ghost slots = self@;
        let mut pending = self.slots;
        let mut reversed: Vec<Result<Thumbnail, ThumbnailError>> = Vec::new();
        let total = pending.len();
        while pending.len() > 0
            invariant
                total == slots.len(),
                pending@.len() <= total,
                slot_views(pending@) == slots.take(pending@.len() as int),
                reversed@.len() == total - pending@.len(),
                forall|k: int|
                    0 <= k < reversed@.len() ==> outcome_view(#[trigger] reversed@[k]) == gathered(
                        slots,
                    )[total - 1 - k],
            decreases pending.len(),
        {
            let ghost before = pending@;
            let i = pending.len() - 1;
            assert(slot_views(before)[i as int] == slots[i as int]);
            let slot = pending.pop().unwrap();
            assert(slot_views(pending@) =~= slots.take(pending@.len() as int)) by {
                assert forall|k: int| 0 <= k < pending@.len() implies slot_views(pending@)[k]
                    == slots[k] by {
                    assert(slot_views(before)[k] == slots[k]);
                }
            }
            let outcome = match slot {
                Some(outcome) => outcome,
                None => Err(ThumbnailError::PageUnavailable),
            };
            reversed.push(outcome);
        }
        let mut outcomes: Vec<Result<Thumbnail, ThumbnailError>> = Vec::new();
        while reversed.len() > 0
            invariant
                reversed@.len() + outcomes@.len() == total,
                total == slots.len(),
                forall|k: int|
                    0 <= k < reversed@.len() ==> outcome_view(#[trigger] reversed@[k]) == gathered(
                        slots,
                    )[total - 1 - k],
                forall|k: int|
                    0 <= k < outcomes@.len() ==> outcome_view(#[trigger] outcomes@[k]) == gathered(
                        slots,
                    )[k],
            decreases reversed.len(),
        {
            let outcome = reversed.pop().unwrap();
            outcomes.push(outcome);
        }
        assert(outcome_views(outcomes@) =~= gathered(slots));
        outcomes
    }
}

/// The order in which two downloads for different rows land makes no
/// difference to what is gathered, and a second outcome for a row changes
/// nothing.
pub proof fn lemma_landing_order(
    slots: Seq<Option<Result<Picture, ThumbnailError>>>,
    i: int,
    a: Result<Picture, ThumbnailError>,
    j: int,
    b: Result<Picture, ThumbnailError>,
)
    ensures
        i != j ==> landed(landed(slots, i, a), j, b) == landed(landed(slots, j, b), i, a),
        landed(landed(slots, i, a), i, b) == landed(slots, i, a),
        landed(slots, i, a).len() == slots.len(),
{
    if i != j {
        assert(landed(landed(slots, i, a), j, b) =~= landed(landed(slots, j, b), i, a));
    }
}

/// A row whose download landed comes out of a gathering with that outcome;
/// every row comes out, landed or not.
pub proof fn lemma_gathered(
    slots: Seq<Option<Result<Picture, ThumbnailError>>>,
    i: int,
    outcome: Result<Picture, ThumbnailError>,
)
    requires
        0 <= i < slots.len(),
        slots[i] is None,
    ensures
        gathered(landed(slots, i, outcome))[i] == outcome,
        gathered(landed(slots, i, outcome)).len() == slots.len(),
        forall|k: int|
            0 <= k < slots.len() && k != i ==> (#[trigger] gathered(landed(slots, i, outcome))[k])
                == gathered(slots)[k],
{
}

/// Every row comes out of `enrich` exactly once, at its own place, and a row
/// whose download failed carries the placeholder.
pub proof fn lemma_enrichment_total(
    rows: Seq<NewsRowView>,
    outcomes: Seq<Result<Picture, ThumbnailError>>,
    placeholder: Picture,
)
    ensures
        enriched(rows, outcomes, placeholder).len() == rows.len(),
        forall|i: int|
            0 <= i < rows.len() ==> (#[trigger] enriched(rows, outcomes, placeholder)[i]).row
                == rows[i],
        forall|i: int|
            0 <= i < rows.len() && i < outcomes.len() && outcomes[i] is Err ==> (#[trigger] enriched(
                rows,
                outcomes,
                placeholder,
            )[i]).thumbnail == placeholder,
        forall|i: int|
            0 <= i < rows.len() && i < outcomes.len() && outcomes[i] is Ok ==> (#[trigger] enriched(
                rows,
                outcomes,
                placeholder,
            )[i]).thumbnail == outcomes[i]->Ok_0,
{
}

impl Article {
    /// A second article with the same texts and thumbnail.
    pub fn duplicate(&self) -> (a: Article)
        ensures
            a@ == self@,
    {
        Article {
            title: self.title.clone(),
            source: self.source.clone(),
            published: self.published.clone(),
            url: self.url.clone(),
            thumbnail: self.thumbnail.duplicate(),
        }
    }
}

/// The kept rows of a list of articles: each without its thumbnail.
pub open spec fn rows_of_articles(articles: Seq<ArticleView>) -> Seq<NewsRowView> {
    Seq::new(articles.len(), |i: int| articles[i].row)
}

/// The rows to keep of a list of articles: each without its thumbnail.
pub fn kept_rows(articles: &Vec<Article>) -> (rows: Vec<NewsRow>)
    ensures
        news_row_views(rows@) == rows_of_articles(article_views(articles@)),
{
    let mut rows: Vec<NewsRow> = Vec::new();
    let mut i: usize = 0;
    while i < articles.len()
        invariant
            i <= articles.len(),
            rows@.len() == i,
            forall|k: int| 0 <= k < i ==> (#[trigger] rows@[k])@ == articles@[k]@.row,
        decreases articles.len() - i,
    {
        let a = &articles[i];
        rows.push(
            NewsRow {
                title: a.title.clone(),
                source: a.source.clone(),
                published: a.published.clone(),
                url: a.url.clone(),
            },
        );
        i += 1;
    }
    assert(news_row_views(rows@) =~= rows_of_articles(article_views(articles@)));
    rows
}

/// A second list with the same articles.
pub fn duplicate_articles(articles: &Vec<Article>) -> (copy: Vec<Article>)
    ensures
        article_views(copy@) == article_views(articles@),
{
    let mut copy: Vec<Article> = Vec::new();
    let mut i: usize = 0;
    while i < articles.len()
        invariant
            i <= articles.len(),
            copy@.len() == i,
            forall|k: int| 0 <= k < i ==> (#[trigger] copy@[k])@ == articles@[k]@,
        decreases articles.len() - i,
    {
        copy.push(articles[i].duplicate());
        i += 1;
    }
    assert(article_views(copy@) =~= article_views(articles@));
    copy
}

/// What one topic's search brought.
#[derive(Debug)]
pub struct MemoEntry {
    pub topic: String,
    pub articles: Vec<Article>,
}

/// What earlier searches brought, by topic, for as long as the process
/// lives. It is neither kept on disk nor aged.
#[derive(Debug)]
pub struct TopicMemo {
    pub entries: Vec<MemoEntry>,
}

/// The articles remembered for a topic, looking from `from` on.
pub open spec fn remembered_from(entries: Seq<MemoEntry>, topic: Seq<char>, from: int) -> Option<
    Seq<ArticleView>,
>
    decreases entries.len() - from,
{
    if from < 0 || from >= entries.len() {
        None
    } else if entries[from].topic@ == topic {
        Some(article_views(entries[from].articles@))
    } else {
        remembered_from(entries, topic, from + 1)
    }
}

/// What looking up a topic gives after `entry` took the place of the entry
/// at `at`, which had the same topic.
proof fn lemma_remembered_after_update(
    entries: Seq<MemoEntry>,
    at: int,
    entry: MemoEntry,
    topic: Seq<char>,
    from: int,
)
    requires
        0 <= from <= at < entries.len(),
        entries[at].topic@ == entry.topic@,
        forall|k: int| from <= k < at ==> (#[trigger] entries[k]).topic@ != entry.topic@,
    ensures
        remembered_from(entries.update(at, entry), topic, from) == if topic == entry.topic@ {
            Some(article_views(entry.articles@))
        } else {
            remembered_from(entries, topic, from)
        },
    decreases at - from,
{
    let after = entries.update(at, entry);
    if from < at {
        assert(after[from] == entries[from]);
        lemma_remembered_after_update(entries, at, entry, topic, from + 1);
    } else {
        assert(after[at] == entry);
        if topic != entry.topic@ {
            lemma_remembered_same_tail(entries, after, topic, at + 1);
        }
    }
}

/// Two lists that agree from `from` on give the same when a topic is looked
/// up from there.
proof fn lemma_remembered_same_tail(
    a: Seq<MemoEntry>,
    b: Seq<MemoEntry>,
    topic: Seq<char>,
    from: int,
)
    requires
        0 <= from,
        a.len() == b.len(),
        forall|k: int| from <= k < a.len() ==> a[k] == b[k],
    ensures
        remembered_from(a, topic, from) == remembered_from(b, topic, from),
    decreases a.len() - from,
{
    if from < a.len() {
        lemma_remembered_same_tail(a, b, topic, from + 1);
    }
}

/// What looking up a topic gives after `entry` was added at the end.
proof fn lemma_remembered_after_push(
    entries: Seq<MemoEntry>,
    entry: MemoEntry,
    topic: Seq<char>,
    from: int,
)
    requires
        0 <= from <= entries.len(),
    ensures
        remembered_from(entries.push(entry), topic, from) == match remembered_from(
            entries,
            topic,
            from,
        ) {
            Some(found) => Some(found),
            None => if topic == entry.topic@ {
                Some(article_views(entry.articles@))
            } else {
                None
            },
        },
    decreases entries.len() - from,
{
    let after = entries.push(entry);
    if from < entries.len() {
        assert(after[from] == entries[from]);
        lemma_remembered_after_push(entries, entry, topic, from + 1);
    } else {
        assert(after[from] == entry);
        assert(remembered_from(after, topic, from + 1) is None);
    }
}

impl TopicMemo {
    /// The articles remembered for a topic.
    pub open spec fn remembered(&self, topic: Seq<char>) -> Option<Seq<ArticleView>> {
        remembered_from(self.entries@, topic, 0)
    }

    /// A memo that remembers nothing.
    pub fn new() -> (memo: TopicMemo)
        ensures
            forall|topic: Seq<char>| memo.remembered(topic) is None,
    {
        TopicMemo { entries: Vec::new() }
    }

    /// Where the entry of a topic stands.
    fn position(&self, topic: &str) -> (r: Option<usize>)
        ensures
            match r {
                Some(i) => i < self.entries@.len() && self.entries@[i as int].topic@ == topic@
                    && forall|k: int| 0 <= k < i ==> (#[trigger] self.entries@[k]).topic@ != topic@,
                None => forall|k: int|
                    0 <= k < self.entries@.len() ==> (#[trigger] self.entries@[k]).topic@ != topic@,
            },
    {
        let mut i: usize = 0;
        while i < self.entries.len()
            invariant
                i <= self.entries.len(),
                forall|k: int| 0 <= k < i ==> (#[trigger] self.entries@[k]).topic@ != topic@,
            decreases self.entries.len() - i,
        {
            if same_text(self.entries[i].topic.as_str(), topic) {
                return Some(i);
            }
            i += 1;
        }
        None
    }

    /// A copy of the articles remembered for a topic, if any are.
    pub fn get(&self, topic: &str) -> (r: Option<Vec<Article>>)
        ensures
            match r {
                Some(articles) => self.remembered(topic@) == Some(article_views(articles@)),
                None => self.remembered(topic@) is None,
            },
    {
        let mut i: usize = 0;
        while i < self.entries.len()
            invariant
                i <= self.entries.len(),
                remembered_from(self.entries@, topic@, 0) == remembered_from(
                    self.entries@,
                    topic@,
                    i as int,
                ),
            decreases self.entries.len() - i,
        {
            if same_text(self.entries[i].topic.as_str(), topic) {
                return Some(duplicate_articles(&self.entries[i].articles));
            }
            i += 1;
        }
        None
    }

    /// Remembers the articles of a topic, in place of what was remembered
    /// for it before. What is remembered for other topics stays.
    pub fn insert(&mut self, topic: &str, articles: Vec<Article>)
        ensures
            forall|t: Seq<char>|
                #[trigger] final(self).remembered(t) == if t == topic@ {
                    Some(article_views(articles@))
                } else {
                    old(self).remembered(t)
                },
    {
        let entry = MemoEntry { topic: topic.to_owned(), articles };
        match self.position(topic) {
            Some(i) => {
                proof {
                    assert forall|t: Seq<char>|
                        remembered_from(self.entries@.update(i as int, entry), t, 0) == if t
                            == topic@ {
                            Some(article_views(articles@))
                        } else {
                            #[trigger] remembered_from(self.entries@, t, 0)
                        } by {
                        lemma_remembered_after_update(self.entries@, i as int, entry, t, 0);
                    }
                }
                self.entries.set(i, entry);
            },
            None => {
                proof {
                    assert forall|t: Seq<char>|
                        remembered_from(self.entries@.push(entry), t, 0) == if t == topic@ {
                            Some(article_views(articles@))
                        } else {
                            #[trigger] remembered_from(self.entries@, t, 0)
                        } by {
                        lemma_remembered_after_push(self.entries@, entry, t, 0);
                        lemma_absent(self.entries@, t, 0);
                    }
                }
                self.entries.push(entry);
            },
        }
    }
}

/// A topic that no entry from `from` on goes by is not remembered there.
proof fn lemma_absent(entries: Seq<MemoEntry>, topic: Seq<char>, from: int)
    requires
        0 <= from,
    ensures
        (forall|k: int| from <= k < entries.len() ==> (#[trigger] entries[k]).topic@ != topic)
            ==> remembered_from(entries, topic, from) is None,
    decreases entries.len() - from,
{
    if from < entries.len() {
        lemma_absent(entries, topic, from + 1);
    }
}

} // verus!
