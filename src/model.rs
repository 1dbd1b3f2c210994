//! The extraction record and its mathematical view.
use vstd::prelude::*;

verus! {

/// Engagement counters as the page renders them ("1.2k" and the like).
#[derive(Debug, Clone, PartialEq, Eq)]
pub struct RednoteEngagement {
    pub likes: String,
    pub comments: String,
    pub collects: String,
}

/// A downloadable resource: a quality label and its URL.
#[derive(Debug, Clone, PartialEq, Eq)]
pub struct RednoteDownload {
    pub quality: String,
    pub url: String,
}

/// Everything extracted from one post page. Every text field is empty where
/// its source is missing.
#[derive(Debug, Clone, PartialEq, Eq)]
pub struct RednoteResult {
    pub note_id: String,
    pub nickname: String,
    pub title: String,
    pub desc: String,
    pub keywords: String,
    pub duration: String,
    pub engagement: RednoteEngagement,
    pub images: Vec<String>,
    pub downloads: Vec<RednoteDownload>,
}

/// The counters' texts.
pub struct EngagementView {
    pub likes: Seq<char>,
    pub comments: Seq<char>,
    pub collects: Seq<char>,
}

/// A download's label and URL as texts.
pub struct DownloadView {
    pub quality: Seq<char>,
    pub url: Seq<char>,
}

/// The record as texts and sequences of texts.
pub struct ResultView {
    pub note_id: Seq<char>,
    pub nickname: Seq<char>,
    pub title: Seq<char>,
    pub desc: Seq<char>,
    pub keywords: Seq<char>,
    pub duration: Seq<char>,
    pub engagement: EngagementView,
    pub images: Seq<Seq<char>>,
    pub downloads: Seq<DownloadView>,
}

impl View for RednoteEngagement {
    type V = EngagementView;

    open spec fn view(&self) -> EngagementView {
        EngagementView { likes: self.likes@, comments: self.comments@, collects: self.collects@ }
    }
}

impl View for RednoteDownload {
    type V = DownloadView;

    open spec fn view(&self) -> DownloadView {
        DownloadView { quality: self.quality@, url: self.url@ }
    }
}

impl View for RednoteResult {
    type V = ResultView;

    open spec fn view(&self) -> ResultView {
        ResultView {
            note_id: self.note_id@,
            nickname: self.nickname@,
            title: self.title@,
            desc: self.desc@,
            keywords: self.keywords@,
            duration: self.duration@,
            engagement: self.engagement@,
            images: self.images@.map_values(|s: String| s@),
            downloads: self.downloads@.map_values(|d: RednoteDownload| d@),
        }
    }
}

} // verus!
