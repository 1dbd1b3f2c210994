//! The metadata extractor: fixed patterns searched over the whole document,
//! then the record assembled from what they captured.
use vstd::prelude::*;
use crate::model::{
    DownloadView, EngagementView, RednoteDownload, RednoteEngagement, RednoteResult, ResultView,
};
use crate::pattern::{
    all_captures, all_captures_of, first_capture, first_capture_of, opt_view, texts,
};
use crate::text::{author_name, lemma_author_before_first_separator, author_of, last_path_segment, last_segment, trim_text, trimmed};

verus! {

/// The fixed patterns, each with one capture group, case-insensitive and
/// with `.` matching newlines.
pub const TITLE_PATTERN: &'static str = r#"(?is)<title>(.*?)</title>"#;

pub const DESCRIPTION_PATTERN: &'static str = r#"(?is)<meta[^>]*name="description"[^>]*content="(.*?)""#;

pub const KEYWORDS_PATTERN: &'static str = r#"(?is)<meta[^>]*name="keywords"[^>]*content="(.*?)""#;

pub const VIDEO_PATTERN: &'static str = r#"(?is)<meta[^>]*name="og:video"[^>]*content="(.*?)""#;

pub const PAGE_URL_PATTERN: &'static str = r#"(?is)<meta[^>]*name="og:url"[^>]*content="(.*?)""#;

pub const DURATION_PATTERN: &'static str = r#"(?is)<meta[^>]*name="og:videotime"[^>]*content="(.*?)""#;

pub const COMBINED_TITLE_PATTERN: &'static str = r#"(?is)<meta[^>]*name="og:title"[^>]*content="(.*?)""#;

pub const IMAGE_PATTERN: &'static str = r#"(?is)<meta[^>]*name="og:image"[^>]*content="(.*?)""#;

pub const COMMENTS_PATTERN: &'static str =
    r#"(?is)<meta[^>]*name="og:xhs:note_comment"[^>]*content="(.*?)""#;

pub const LIKES_PATTERN: &'static str = r#"(?is)<meta[^>]*name="og:xhs:note_like"[^>]*content="(.*?)""#;

pub const COLLECTS_PATTERN: &'static str =
    r#"(?is)<meta[^>]*name="og:xhs:note_collect"[^>]*content="(.*?)""#;

pub const ORIGINAL_QUALITY: &'static str = "Original";

/// What the patterns captured from a document, before trimming.
pub struct RawFields {
    pub title: Option<String>,
    pub desc: Option<String>,
    pub keywords: Option<String>,
    pub video: Option<String>,
    pub page_url: Option<String>,
    pub duration: Option<String>,
    pub combined_title: Option<String>,
    pub likes: Option<String>,
    pub comments: Option<String>,
    pub collects: Option<String>,
    pub images: Vec<String>,
}

/// The captures as texts.
pub struct RawFieldsView {
    pub title: Option<Seq<char>>,
    pub desc: Option<Seq<char>>,
    pub keywords: Option<Seq<char>>,
    pub video: Option<Seq<char>>,
    pub page_url: Option<Seq<char>>,
    pub duration: Option<Seq<char>>,
    pub combined_title: Option<Seq<char>>,
    pub likes: Option<Seq<char>>,
    pub comments: Option<Seq<char>>,
    pub collects: Option<Seq<char>>,
    pub images: Seq<Seq<char>>,
}

impl View for RawFields {
    type V = RawFieldsView;

    open spec fn view(&self) -> RawFieldsView {
        RawFieldsView {
            title: opt_view(self.title),
            desc: opt_view(self.desc),
            keywords: opt_view(self.keywords),
            video: opt_view(self.video),
            page_url: opt_view(self.page_url),
            duration: opt_view(self.duration),
            combined_title: opt_view(self.combined_title),
            likes: opt_view(self.likes),
            comments: opt_view(self.comments),
            collects: opt_view(self.collects),
            images: texts(self.images@),
        }
    }
}

/// What the fixed patterns capture from `html`.
pub open spec fn captured(html: Seq<char>) -> RawFieldsView {
    RawFieldsView {
        title: first_capture_of(TITLE_PATTERN@, html),
        desc: first_capture_of(DESCRIPTION_PATTERN@, html),
        keywords: first_capture_of(KEYWORDS_PATTERN@, html),
        video: first_capture_of(VIDEO_PATTERN@, html),
        page_url: first_capture_of(PAGE_URL_PATTERN@, html),
        duration: first_capture_of(DURATION_PATTERN@, html),
        combined_title: first_capture_of(COMBINED_TITLE_PATTERN@, html),
        likes: first_capture_of(LIKES_PATTERN@, html),
        comments: first_capture_of(COMMENTS_PATTERN@, html),
        collects: first_capture_of(COLLECTS_PATTERN@, html),
        images: all_captures_of(IMAGE_PATTERN@, html),
    }
}

/// A field's text: the capture trimmed, or empty where nothing was captured.
pub open spec fn text_of(o: Option<Seq<char>>) -> Seq<char> {
    match o {
        Some(s) => trimmed(s),
        None => Seq::empty(),
    }
}

/// One download of the original quality where the video URL is non-empty,
/// none otherwise.
pub open spec fn downloads_of(video: Seq<char>) -> Seq<DownloadView> {
    if video.len() > 0 {
        seq![DownloadView { quality: ORIGINAL_QUALITY@, url: video }]
    } else {
        Seq::empty()
    }
}

/// The record built from captured fields.
pub open spec fn assembled(raw: RawFieldsView) -> ResultView {
    ResultView {
        note_id: last_segment(text_of(raw.page_url)),
        nickname: author_of(text_of(raw.combined_title)),
        title: text_of(raw.title),
        desc: text_of(raw.desc),
        keywords: text_of(raw.keywords),
        duration: text_of(raw.duration),
        engagement: EngagementView {
            likes: text_of(raw.likes),
            comments: text_of(raw.comments),
            collects: text_of(raw.collects),
        },
        images: raw.images.map_values(|s: Seq<char>| trimmed(s)),
        downloads: downloads_of(text_of(raw.video)),
    }
}

/// The text of a captured field: trimmed, or empty where nothing was captured.
pub fn field_text(o: &Option<String>) -> (r: String)
    ensures
        r@ == text_of(opt_view(*o)),
{
    match o {
        Some(s) => trim_text(s.as_str()),
        None => String::new(),
    }
}

/// Each string of `v`, trimmed, in the same order.
pub fn trim_all(v: &Vec<String>) -> (r: Vec<String>)
    ensures
        texts(r@) == texts(v@).map_values(|s: Seq<char>| trimmed(s)),
{
    let mut r: Vec<String> = Vec::new();
    let mut i: usize = 0;
    while i < v.len()
        invariant
            i <= v@.len(),
            r@.len() == i,
            forall|k: int| 0 <= k < i ==> #[trigger] r@[k]@ == trimmed(v@[k]@),
        decreases v@.len() - i,
    {
        let t = trim_text(v[i].as_str());
        r.push(t);
        i = i + 1;
    }
    assert(texts(r@) =~= texts(v@).map_values(|s: Seq<char>| trimmed(s)));
    r
}

/// The downloads offered for a video URL: one of the original quality when
/// the URL is non-empty, none otherwise.
pub fn downloads_for(video: String) -> (r: Vec<RednoteDownload>)
    ensures
        r@.map_values(|d: RednoteDownload| d@) == downloads_of(video@),
{
    if video.as_str().is_empty() {
        let r: Vec<RednoteDownload> = Vec::new();
        assert(r@.map_values(|d: RednoteDownload| d@) =~= downloads_of(video@));
        r
    } else {
        let d = RednoteDownload { quality: String::from_str(ORIGINAL_QUALITY), url: video };
        let r = vec![d];
        assert(r@.map_values(|d: RednoteDownload| d@) =~= downloads_of(video@));
        r
    }
}

/// Builds the record from what the patterns captured.
pub fn assemble(raw: &RawFields) -> (r: RednoteResult)
    ensures
        r@ == assembled(raw@),
{
    let page_url = field_text(&raw.page_url);
    let combined_title = field_text(&raw.combined_title);
    let video = field_text(&raw.video);
    let r = RednoteResult {
        note_id: last_path_segment(page_url.as_str()),
        nickname: author_name(combined_title.as_str()),
        title: field_text(&raw.title),
        desc: field_text(&raw.desc),
        keywords: field_text(&raw.keywords),
        duration: field_text(&raw.duration),
        engagement: RednoteEngagement {
            likes: field_text(&raw.likes),
            comments: field_text(&raw.comments),
            collects: field_text(&raw.collects),
        },
        images: trim_all(&raw.images),
        downloads: downloads_for(video),
    };
    assert(r@.images =~= assembled(raw@).images);
    r
}

/// Runs each fixed pattern over the whole of `html`.
pub fn capture_fields(html: &str) -> (r: RawFields)
    ensures
        r@ == captured(html@),
{
    RawFields {
        title: first_capture(TITLE_PATTERN, html),
        desc: first_capture(DESCRIPTION_PATTERN, html),
        keywords: first_capture(KEYWORDS_PATTERN, html),
        video: first_capture(VIDEO_PATTERN, html),
        page_url: first_capture(PAGE_URL_PATTERN, html),
        duration: first_capture(DURATION_PATTERN, html),
        combined_title: first_capture(COMBINED_TITLE_PATTERN, html),
        likes: first_capture(LIKES_PATTERN, html),
        comments: first_capture(COMMENTS_PATTERN, html),
        collects: first_capture(COLLECTS_PATTERN, html),
        images: all_captures(IMAGE_PATTERN, html),
    }
}

/// Extracts the record from a page's HTML. Total: any text gives a complete
/// record, with empty fields where a tag is missing.
pub fn extract(html: &str) -> (r: RednoteResult)
    ensures
        r@ == assembled(captured(html@)),
{
    let raw = capture_fields(html);
    assemble(&raw)
}

} // verus!

verus! {

/// A document in which no pattern captures anything gives a record whose
/// text fields are all empty and whose sequences are all empty.
pub proof fn lemma_nothing_captured_gives_empty_record(html: Seq<char>)
    requires
        captured(html).title is None,
        captured(html).desc is None,
        captured(html).keywords is None,
        captured(html).video is None,
        captured(html).page_url is None,
        captured(html).duration is None,
        captured(html).combined_title is None,
        captured(html).likes is None,
        captured(html).comments is None,
        captured(html).collects is None,
        captured(html).images.len() == 0,
    ensures
        ({
            let r = assembled(captured(html));
            &&& r.note_id.len() == 0
            &&& r.nickname.len() == 0
            &&& r.title.len() == 0
            &&& r.desc.len() == 0
            &&& r.keywords.len() == 0
            &&& r.duration.len() == 0
            &&& r.engagement.likes.len() == 0
            &&& r.engagement.comments.len() == 0
            &&& r.engagement.collects.len() == 0
            &&& r.images.len() == 0
            &&& r.downloads.len() == 0
        }),
{
    let e = Seq::<char>::empty();
    assert(last_segment(e) == e);
    lemma_author_before_first_separator(e);
}

/// The images are every captured image URL, trimmed, in document order,
/// duplicates kept.
pub proof fn lemma_images_keep_order(html: Seq<char>)
    ensures
        assembled(captured(html)).images.len() == captured(html).images.len(),
        forall|i: int|
            0 <= i < captured(html).images.len() ==> #[trigger] assembled(captured(html)).images[i]
                == trimmed(captured(html).images[i]),
{
}

/// There is exactly one download, of the original quality with the video
/// URL, when that URL is non-empty, and none otherwise.
pub proof fn lemma_downloads_follow_video(raw: RawFieldsView)
    ensures
        text_of(raw.video).len() > 0 ==> assembled(raw).downloads.len() == 1
            && assembled(raw).downloads[0] == (DownloadView {
            quality: ORIGINAL_QUALITY@,
            url: text_of(raw.video),
        }),
        text_of(raw.video).len() == 0 ==> assembled(raw).downloads.len() == 0,
{
}

} // verus!
