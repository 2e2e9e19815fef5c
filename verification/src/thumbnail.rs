//! Thumbnails of news articles: where a page names its preview image, how
//! that reference becomes a download address, and what stands in when any
//! step fails.

use vstd::prelude::*;
use vstd::string::*;
use crate::text::{opt_text, opt_texts};

verus! {

/// Seconds after which a page or image download is given up.
pub const THUMBNAIL_TIMEOUT_SECS: u64 = 8;

/// Name under which page and image downloads announce themselves.
pub fn thumbnail_user_agent() -> (r: String)
    ensures
        r@ == "news-thumbs/1.0"@,
{
    "news-thumbs/1.0".to_owned()
}

/// Side length, in pixels, of the blank thumbnail of last resort.
pub const BLANK_SIDE: u32 = 10;

/// A picture as a mathematical value: its size and its RGBA bytes, row by
/// row.
pub struct Picture {
    pub width: nat,
    pub height: nat,
    pub pixels: Seq<u8>,
}

/// An RGBA pixel buffer, four bytes per pixel.
#[derive(Debug)]
pub struct Thumbnail {
    pub width: u32,
    pub height: u32,
    pub pixels: Vec<u8>,
}

impl View for Thumbnail {
    type V = Picture;

    open spec fn view(&self) -> Picture {
        Picture { width: self.width as nat, height: self.height as nat, pixels: self.pixels@ }
    }
}

/// A picture holds exactly four bytes for each of its pixels.
pub open spec fn picture_well_formed(p: Picture) -> bool {
    p.pixels.len() == 4 * p.width * p.height
}

/// The blank picture: ten by ten pixels, every byte zero.
pub open spec fn blank_picture() -> Picture {
    Picture { width: 10, height: 10, pixels: Seq::new(400, |i: int| 0u8) }
}

impl Thumbnail {
    /// Whether the buffer holds exactly four bytes for each pixel.
    pub open spec fn well_formed(&self) -> bool {
        picture_well_formed(self@)
    }

    /// Whether the buffer holds exactly four bytes for each pixel.
    pub fn is_well_formed(&self) -> (ok: bool)
        ensures
            ok == self.well_formed(),
    {
        let w: u64 = self.width as u64;
        let h: u64 = self.height as u64;
        assert(w * h <= 0xFFFF_FFFF * 0xFFFF_FFFF) by (nonlinear_arith)
            requires
                w <= 0xFFFF_FFFF,
                h <= 0xFFFF_FFFF,
        ;
        let area: u64 = w * h;
        assert(4 * (self.width as nat) * (self.height as nat) == 4 * (w * h)) by (nonlinear_arith)
            requires
                w == self.width,
                h == self.height,
        ;
        (self.pixels.len() as u128) == 4u128 * (area as u128)
    }

    /// The blank thumbnail of last resort.
    pub fn blank() -> (t: Thumbnail)
        ensures
            t@ == blank_picture(),
            t.well_formed(),
    {
        let mut pixels: Vec<u8> = Vec::new();
        let mut i: usize = 0;
        while i < 400
            invariant
                i <= 400,
                pixels@.len() == i,
                forall|k: int| 0 <= k < i ==> pixels@[k] == 0u8,
            decreases 400 - i,
        {
            pixels.push(0u8);
            i += 1;
        }
        assert(pixels@ =~= Seq::new(400, |i: int| 0u8));
        Thumbnail { width: BLANK_SIDE, height: BLANK_SIDE, pixels }
    }

    /// A second buffer with the same size and bytes.
    pub fn duplicate(&self) -> (t: Thumbnail)
        ensures
            t@ == self@,
    {
        let pixels = self.pixels.clone();
        assert(pixels@ =~= self.pixels@);
        Thumbnail { width: self.width, height: self.height, pixels }
    }
}

/// Why an article got no thumbnail of its own.
#[derive(Debug, PartialEq, Eq, Structural, Clone, Copy)]
pub enum ThumbnailError {
    /// The article page could not be downloaded.
    PageUnavailable,
    /// The page names no preview image.
    NoImageMetadata,
    /// The image reference is no address, alone or against the article's.
    UnresolvableReference,
    /// The image could not be downloaded.
    ImageUnavailable,
    /// The downloaded bytes are no picture.
    UndecodableImage,
}

/// Number of metadata selectors that are tried for a preview image.
pub const IMAGE_SELECTOR_COUNT: usize = 4;

/// The metadata selectors that may name a preview image, by priority.
pub open spec fn image_selector(i: int) -> Seq<char> {
    if i == 0 {
        "meta[property=\"og:image\"]"@
    } else if i == 1 {
        "meta[property=\"og:image:secure_url\"]"@
    } else if i == 2 {
        "meta[name=\"twitter:image\"]"@
    } else {
        "meta[name=\"twitter:image:src\"]"@
    }
}

/// The metadata selectors that may name a preview image, highest priority
/// first.
pub fn image_selectors() -> (v: Vec<String>)
    ensures
        v@.len() == IMAGE_SELECTOR_COUNT,
        forall|i: int| 0 <= i < IMAGE_SELECTOR_COUNT ==> (#[trigger] v@[i])@ == image_selector(i),
{
    let mut v: Vec<String> = Vec::new();
    v.push("meta[property=\"og:image\"]".to_owned());
    v.push("meta[property=\"og:image:secure_url\"]".to_owned());
    v.push("meta[name=\"twitter:image\"]".to_owned());
    v.push("meta[name=\"twitter:image:src\"]".to_owned());
    v
}

/// What an HTML page gives for a CSS selector and an attribute name: the
/// value of that attribute on the first element that scraper finds for the
/// selector as it walks the parsed page. There is none when the selector is
/// malformed, matches nothing, or that first element lacks the attribute.
pub uninterp spec fn first_match_attr(html: Seq<char>, css: Seq<char>, attribute: Seq<char>)
    -> Option<Seq<char>>;

/// The absolute address that a text parses to, in normalised form, if it is
/// one.
pub uninterp spec fn parsed_url(text: Seq<char>) -> Option<Seq<char>>;

/// The address that a reference denotes when read against a base address.
pub uninterp spec fn joined_url(base: Seq<char>, reference: Seq<char>) -> Option<Seq<char>>;

/// An address with one more key-value pair at the end of its query.
pub uninterp spec fn url_with_pair(url: Seq<char>, key: Seq<char>, value: Seq<char>) -> Option<
    Seq<char>,
>;

/// The picture that an encoded image file decodes to, as RGBA bytes.
pub uninterp spec fn decoded_rgba(bytes: Seq<u8>) -> Option<Picture>;

/// Parses the page once with `scraper::Html::parse_document` and asks it, for
/// each selector in turn, for the first matching element
/// (`scraper::Selector::parse`, `Html::select`) and that element's attribute
/// (`Element::attr`). The answers come back in the order of the selectors.
#[verifier::external_body]
fn first_match_attrs(html: &str, selectors: &Vec<String>, attribute: &str) -> (found: Vec<
    Option<String>,
>)
    ensures
        found@.len() == selectors@.len(),
        forall|i: int|
            0 <= i < selectors@.len() ==> opt_text(#[trigger] found@[i]) == first_match_attr(
                html@,
                selectors@[i]@,
                attribute@,
            ),
{
    let page = scraper::Html::parse_document(html);
    selectors.iter().map(|css| {
        let selector = scraper::Selector::parse(css).ok()?;
        page.select(&selector).next()?.value().attr(attribute).map(String::from)
    }).collect()
}

/// Calls `url::Url::parse`: the text as an absolute address, or nothing when
/// it is not one.
#[verifier::external_body]
fn parse_url(text: &str) -> (r: Option<String>)
    ensures
        opt_text(r) == parsed_url(text@),
{
    url::Url::parse(text).ok().map(String::from)
}

/// Calls `url::Url::join` on the parsed base: the reference resolved against
/// the base, or nothing when the base is no absolute address or the
/// reference cannot be resolved.
#[verifier::external_body]
fn join_url(base: &str, reference: &str) -> (r: Option<String>)
    ensures
        opt_text(r) == joined_url(base@, reference@),
{
    url::Url::parse(base).ok()?.join(reference).ok().map(String::from)
}

/// Calls `url::Url::query_pairs_mut` and `append_pair` on the parsed
/// address: the address with the pair appended to its query, or nothing when
/// the text is no absolute address.
#[verifier::external_body]
fn append_query_pair(url: &str, key: &str, value: &str) -> (r: Option<String>)
    ensures
        opt_text(r) == url_with_pair(url@, key@, value@),
{
    let mut address = url::Url::parse(url).ok()?;
    address.query_pairs_mut().append_pair(key, value);
    Some(String::from(address))
}

/// Calls `image::load_from_memory` and `DynamicImage::to_rgba8`: the decoded
/// picture with its width, height and raw RGBA bytes, or nothing when the
/// bytes are no image in a known format.
#[verifier::external_body]
fn decode_rgba(bytes: &[u8]) -> (r: Option<Thumbnail>)
    ensures
        match r {
            Some(t) => decoded_rgba(bytes@) == Some(t@),
            None => decoded_rgba(bytes@) is None,
        },
{
    let rgba = image::load_from_memory(bytes).ok()?.to_rgba8();
    Some(Thumbnail { width: rgba.width(), height: rgba.height(), pixels: rgba.into_raw() })
}

/// The first answer that is present, in order.
pub open spec fn first_present(found: Seq<Option<Seq<char>>>) -> Option<Seq<char>>
    decreases found.len(),
{
    if found.len() == 0 {
        None
    } else if found[0] is Some {
        found[0]
    } else {
        first_present(found.drop_first())
    }
}

/// What each image selector finds in a page, by priority.
pub open spec fn image_candidates(html: Seq<char>) -> Seq<Option<Seq<char>>> {
    Seq::new(
        IMAGE_SELECTOR_COUNT as nat,
        |i: int| first_match_attr(html, image_selector(i), "content"@),
    )
}

/// The image reference of a page: the `content` of the first image selector,
/// by priority, whose first match has one.
pub open spec fn image_reference(html: Seq<char>) -> Option<Seq<char>> {
    first_present(image_candidates(html))
}

/// The address a reference denotes: itself when it is absolute, else itself
/// read against the article's address.
pub open spec fn resolved_reference(article_url: Seq<char>, reference: Seq<char>) -> Option<
    Seq<char>,
> {
    match parsed_url(reference) {
        Some(u) => Some(u),
        None => joined_url(article_url, reference),
    }
}

/// An address with the size hints `w=300` and `h=150` appended to its query.
pub open spec fn with_size_hints(url: Seq<char>) -> Option<Seq<char>> {
    match url_with_pair(url, "w"@, "300"@) {
        Some(u) => url_with_pair(u, "h"@, "150"@),
        None => None,
    }
}

/// The address from which an article's thumbnail is downloaded, given the
/// article's address and its page.
pub open spec fn thumbnail_address(article_url: Seq<char>, html: Seq<char>) -> Result<
    Seq<char>,
    ThumbnailError,
> {
    match image_reference(html) {
        None => Err(ThumbnailError::NoImageMetadata),
        Some(reference) => match resolved_reference(article_url, reference) {
            None => Err(ThumbnailError::UnresolvableReference),
            Some(address) => match with_size_hints(address) {
                None => Err(ThumbnailError::UnresolvableReference),
                Some(hinted) => Ok(hinted),
            },
        },
    }
}

/// The picture that downloaded bytes stand for: what they decode to, when
/// that holds four bytes per pixel.
pub open spec fn thumbnail_of_bytes(bytes: Seq<u8>) -> Result<Picture, ThumbnailError> {
    match decoded_rgba(bytes) {
        Some(p) => if picture_well_formed(p) {
            Ok(p)
        } else {
            Err(ThumbnailError::UndecodableImage)
        },
        None => Err(ThumbnailError::UndecodableImage),
    }
}

/// The first answer that is present, in order.
pub fn pick_first_present(found: Vec<Option<String>>) -> (r: Option<String>)
    ensures
        opt_text(r) == first_present(opt_texts(found@)),
{
    let ghost all = opt_texts(found@);
    let mut pool = found;
    let mut i: usize = 0;
    assert(all.skip(0) =~= all);
    while i < pool.len()
        invariant
            i <= pool.len(),
            all == opt_texts(found@),
            pool@.len() == all.len(),
            forall|k: int| i <= k < pool@.len() ==> opt_text(#[trigger] pool@[k]) == all[k],
            first_present(all) == first_present(all.skip(i as int)),
        decreases pool.len() - i,
    {
        let ghost rest = all.skip(i as int);
        assert(rest[0] == all[i as int]);
        assert(rest.drop_first() =~= all.skip(i + 1));
        if pool[i].is_some() {
            assert(opt_text(pool@[i as int]) == all[i as int]);
            assert(first_present(rest) == rest[0]);
            let taken = pool.swap_remove(i);
            return taken;
        }
        i += 1;
    }
    assert(all.skip(i as int).len() == 0);
    None
}

/// The image reference of a page: the `content` of the first image selector,
/// by priority, whose first match has one.
pub fn find_image_reference(html: &str) -> (r: Option<String>)
    ensures
        opt_text(r) == image_reference(html@),
{
    let selectors = image_selectors();
    let found = first_match_attrs(html, &selectors, "content");
    assert(opt_texts(found@) =~= image_candidates(html@));
    pick_first_present(found)
}

/// The address a reference denotes, given what it parses to alone and what
/// it gives against the article's address: the first of the two that is
/// there.
pub fn pick_address(absolute: Option<String>, joined: Option<String>) -> (r: Result<
    String,
    ThumbnailError,
>)
    ensures
        match r {
            Ok(u) => (absolute matches Some(a) && u == a) || (absolute is None && joined
                == Some(u)),
            Err(e) => e == ThumbnailError::UnresolvableReference && absolute is None && joined
                is None,
        },
{
    match absolute {
        Some(address) => Ok(address),
        None => match joined {
            Some(address) => Ok(address),
            None => Err(ThumbnailError::UnresolvableReference),
        },
    }
}

/// The address from which an article's thumbnail is downloaded: the page's
/// image reference, resolved against the article's address where it is
/// relative, with the size hints appended.
pub fn thumbnail_url(article_url: &str, html: &str) -> (r: Result<String, ThumbnailError>)
    ensures
        match r {
            Ok(u) => thumbnail_address(article_url@, html@) == Ok::<Seq<char>, ThumbnailError>(u@),
            Err(e) => thumbnail_address(article_url@, html@) == Err::<Seq<char>, ThumbnailError>(e),
        },
{
    let reference = match find_image_reference(html) {
        Some(reference) => reference,
        None => {
            return Err(ThumbnailError::NoImageMetadata);
        },
    };
    let absolute = parse_url(reference.as_str());
    let joined = if absolute.is_none() {
        join_url(article_url, reference.as_str())
    } else {
        None
    };
    let address = match pick_address(absolute, joined) {
        Ok(address) => address,
        Err(e) => {
            return Err(e);
        },
    };
    let widened = match append_query_pair(address.as_str(), "w", "300") {
        Some(widened) => widened,
        None => {
            return Err(ThumbnailError::UnresolvableReference);
        },
    };
    match append_query_pair(widened.as_str(), "h", "150") {
        Some(hinted) => Ok(hinted),
        None => Err(ThumbnailError::UnresolvableReference),
    }
}

/// Accepts a decoded picture as a thumbnail when it holds four bytes per
/// pixel; a picture that does not, and no picture, are undecodable.
pub fn accept_decoded(decoded: Option<Thumbnail>) -> (r: Result<Thumbnail, ThumbnailError>)
    ensures
        match r {
            Ok(t) => decoded == Some(t) && t.well_formed(),
            Err(e) => e == ThumbnailError::UndecodableImage && !(decoded matches Some(t)
                && t.well_formed()),
        },
{
    match decoded {
        Some(t) => {
            if t.is_well_formed() {
                Ok(t)
            } else {
                Err(ThumbnailError::UndecodableImage)
            }
        },
        None => Err(ThumbnailError::UndecodableImage),
    }
}

/// Decodes downloaded bytes into a thumbnail with four bytes per pixel.
pub fn decode_thumbnail(bytes: &[u8]) -> (r: Result<Thumbnail, ThumbnailError>)
    ensures
        match r {
            Ok(t) => thumbnail_of_bytes(bytes@) == Ok::<Picture, ThumbnailError>(t@)
                && t.well_formed(),
            Err(e) => thumbnail_of_bytes(bytes@) == Err::<Picture, ThumbnailError>(e),
        },
{
    accept_decoded(decode_rgba(bytes))
}

/// The outcome of a thumbnail download as a mathematical value.
pub open spec fn outcome_view(outcome: Result<Thumbnail, ThumbnailError>) -> Result<
    Picture,
    ThumbnailError,
> {
    match outcome {
        Ok(t) => Ok(t@),
        Err(e) => Err(e),
    }
}

/// The picture of the placeholder file, or the blank picture when the file
/// is missing or is no well-formed picture.
pub open spec fn placeholder_picture(file: Option<Seq<u8>>) -> Picture {
    match file {
        Some(bytes) => match thumbnail_of_bytes(bytes) {
            Ok(p) => p,
            Err(_) => blank_picture(),
        },
        None => blank_picture(),
    }
}

/// The picture shown for an article: its own when the download succeeded,
/// else the placeholder.
pub open spec fn picture_or(outcome: Result<Picture, ThumbnailError>, placeholder: Picture)
    -> Picture {
    match outcome {
        Ok(p) => p,
        Err(_) => placeholder,
    }
}

/// The placeholder thumbnail: the bundled placeholder file decoded, or the
/// blank thumbnail when the file could not be read or decoded.
pub fn placeholder_or_blank(file: Option<&[u8]>) -> (t: Thumbnail)
    ensures
        t@ == placeholder_picture(
            match file {
                Some(bytes) => Some(bytes@),
                None => None,
            },
        ),
        t.well_formed(),
{
    match file {
        Some(bytes) => match decode_thumbnail(bytes) {
            Ok(t) => t,
            Err(_) => Thumbnail::blank(),
        },
        None => Thumbnail::blank(),
    }
}

/// The thumbnail shown for an article: its own when the download succeeded,
/// else the placeholder. No outcome leaves an article without a thumbnail.
pub fn thumbnail_or_placeholder(
    outcome: Result<Thumbnail, ThumbnailError>,
    placeholder: &Thumbnail,
) -> (t: Thumbnail)
    ensures
        t@ == picture_or(outcome_view(outcome), placeholder@),
{
    match outcome {
        Ok(t) => t,
        Err(_) => placeholder.duplicate(),
    }
}

/// The making of one article's thumbnail, between its two downloads.
pub enum ThumbnailJob {
    /// The article page is to be downloaded from `article_url`.
    AwaitingPage { article_url: String },
    /// The image is to be downloaded from `image_url`.
    AwaitingImage { image_url: String },
    /// Nothing is left to download.
    Finished { outcome: Result<Thumbnail, ThumbnailError> },
}

/// A thumbnail job as a mathematical value.
pub enum JobView {
    AwaitingPage { article_url: Seq<char> },
    AwaitingImage { image_url: Seq<char> },
    Finished { outcome: Result<Picture, ThumbnailError> },
}

impl View for ThumbnailJob {
    type V = JobView;

    open spec fn view(&self) -> JobView {
        match *self {
            ThumbnailJob::AwaitingPage { article_url } => JobView::AwaitingPage {
                article_url: article_url@,
            },
            ThumbnailJob::AwaitingImage { image_url } => JobView::AwaitingImage {
                image_url: image_url@,
            },
            ThumbnailJob::Finished { outcome } => JobView::Finished {
                outcome: outcome_view(outcome),
            },
        }
    }
}

/// A job that awaits its page, once the page was read: it goes on to the
/// image at the address that the page gave, or ends with why there is none.
/// No address at all means that the page could not be downloaded. A job
/// that awaits no page stays as it is.
pub open spec fn job_with_address(job: JobView, address: Option<Result<Seq<char>, ThumbnailError>>)
    -> JobView {
    match job {
        JobView::AwaitingPage { article_url } => match address {
            None => JobView::Finished { outcome: Err(ThumbnailError::PageUnavailable) },
            Some(Ok(image_url)) => JobView::AwaitingImage { image_url },
            Some(Err(e)) => JobView::Finished { outcome: Err(e) },
        },
        _ => job,
    }
}

/// A job that awaits its image, once the image was read: it ends with the
/// picture or with why there is none. No picture at all means that the
/// image could not be downloaded. A job that awaits no image stays as it
/// is.
pub open spec fn job_with_picture(job: JobView, picture: Option<Result<Picture, ThumbnailError>>)
    -> JobView {
    match job {
        JobView::AwaitingImage { image_url } => match picture {
            None => JobView::Finished { outcome: Err(ThumbnailError::ImageUnavailable) },
            Some(outcome) => JobView::Finished { outcome },
        },
        _ => job,
    }
}

/// The job after the page download ended with `page` (nothing when it
/// failed).
pub open spec fn job_after_page(job: JobView, page: Option<Seq<char>>) -> JobView {
    job_with_address(
        job,
        match (job, page) {
            (JobView::AwaitingPage { article_url }, Some(html)) => Some(
                thumbnail_address(article_url, html),
            ),
            _ => None,
        },
    )
}

/// The job after the image download ended with `image` (nothing when it
/// failed).
pub open spec fn job_after_image(job: JobView, image: Option<Seq<u8>>) -> JobView {
    job_with_picture(
        job,
        match image {
            Some(bytes) => Some(thumbnail_of_bytes(bytes)),
            None => None,
        },
    )
}

impl ThumbnailJob {
    /// A job that starts by downloading the article page.
    pub fn begin(article_url: &str) -> (job: ThumbnailJob)
        ensures
            job@ == (JobView::AwaitingPage { article_url: article_url@ }),
    {
        ThumbnailJob::AwaitingPage { article_url: article_url.to_owned() }
    }

    /// Takes the result of the page download: the page's text, or nothing
    /// when the download failed.
    pub fn after_page(self, page: Option<&str>) -> (job: ThumbnailJob)
        ensures
            job@ == job_after_page(
                self@,
                match page {
                    Some(html) => Some(html@),
                    None => None,
                },
            ),
    {
        let address = match (&self, page) {
            (ThumbnailJob::AwaitingPage { article_url }, Some(html)) => Some(
                thumbnail_url(article_url.as_str(), html),
            ),
            _ => None,
        };
        self.with_address(address)
    }

    /// Takes what the page gave for the image's address; no address at all
    /// means that the page could not be downloaded.
    pub fn with_address(self, address: Option<Result<String, ThumbnailError>>) -> (job:
        ThumbnailJob)
        ensures
            job@ == job_with_address(
                self@,
                match address {
                    Some(Ok(u)) => Some(Ok(u@)),
                    Some(Err(e)) => Some(Err(e)),
                    None => None,
                },
            ),
    {
        match self {
            ThumbnailJob::AwaitingPage { article_url } => match address {
                None => ThumbnailJob::Finished { outcome: Err(ThumbnailError::PageUnavailable) },
                Some(Ok(image_url)) => ThumbnailJob::AwaitingImage { image_url },
                Some(Err(e)) => ThumbnailJob::Finished { outcome: Err(e) },
            },
            other => other,
        }
    }

    /// Takes what the image decoded to; no picture at all means that the
    /// image could not be downloaded.
    pub fn with_picture(self, picture: Option<Result<Thumbnail, ThumbnailError>>) -> (job:
        ThumbnailJob)
        ensures
            job@ == job_with_picture(
                self@,
                match picture {
                    Some(outcome) => Some(outcome_view(outcome)),
                    None => None,
                },
            ),
            !(self is Finished) ==> (job matches ThumbnailJob::Finished { outcome: Ok(t) }
                ==> picture == Some(Ok::<Thumbnail, ThumbnailError>(t))),
    {
        match self {
            ThumbnailJob::AwaitingImage { image_url } => match picture {
                None => ThumbnailJob::Finished { outcome: Err(ThumbnailError::ImageUnavailable) },
                Some(outcome) => ThumbnailJob::Finished { outcome },
            },
            other => other,
        }
    }

    /// Takes the result of the image download: the image's bytes, or nothing
    /// when the download failed.
    pub fn after_image(self, image: Option<&[u8]>) -> (job: ThumbnailJob)
        ensures
            job@ == job_after_image(
                self@,
                match image {
                    Some(bytes) => Some(bytes@),
                    None => None,
                },
            ),
            !(self is Finished) ==> (job matches ThumbnailJob::Finished { outcome: Ok(t) }
                ==> t.well_formed()),
    {
        let picture = match image {
            Some(bytes) => Some(decode_thumbnail(bytes)),
            None => None,
        };
        self.with_picture(picture)
    }
}

/// A job ends after its page and image downloads, whatever they bring.
pub proof fn lemma_job_finishes(
    article_url: Seq<char>,
    page: Option<Seq<char>>,
    image: Option<Seq<u8>>,
)
    ensures
        job_after_image(job_after_page(JobView::AwaitingPage { article_url }, page), image)
            is Finished,
{
}

} // verus!
