use rednote::extract::extract;
use rednote::model::RednoteResult;

fn assert_all_empty(r: &RednoteResult) {
    assert_eq!(r.note_id, "");
    assert_eq!(r.nickname, "");
    assert_eq!(r.title, "");
    assert_eq!(r.desc, "");
    assert_eq!(r.keywords, "");
    assert_eq!(r.duration, "");
    assert_eq!(r.engagement.likes, "");
    assert_eq!(r.engagement.comments, "");
    assert_eq!(r.engagement.collects, "");
    assert!(r.images.is_empty());
    assert!(r.downloads.is_empty());
}

#[test]
fn empty_document_gives_empty_record() {
    assert_all_empty(&extract(""));
}

#[test]
fn garbage_gives_empty_record() {
    assert_all_empty(&extract("<<<>>> \" content=\" not html at all </meta"));
}

#[test]
fn author_is_text_before_separator() {
    let r = extract(r#"<meta name="og:title" content="Alice - My Trip">"#);
    assert_eq!(r.nickname, "Alice");
    assert_eq!(r.title, "");
}

#[test]
fn author_is_whole_title_without_separator() {
    let r = extract(r#"<meta name="og:title" content="Alice-My Trip">"#);
    assert_eq!(r.nickname, "Alice-My Trip");
}

#[test]
fn author_stops_at_first_separator() {
    let r = extract(r#"<meta name="og:title" content="A - B - C">"#);
    assert_eq!(r.nickname, "A");
}

#[test]
fn images_keep_order_and_duplicates() {
    let html = r#"<meta name="og:image" content="https://img/1.jpg">
<meta name="og:image" content="https://img/2.jpg">
<meta name="og:image" content=" https://img/1.jpg ">"#;
    let r = extract(html);
    assert_eq!(
        r.images,
        vec![
            "https://img/1.jpg".to_string(),
            "https://img/2.jpg".to_string(),
            "https://img/1.jpg".to_string(),
        ]
    );
}

#[test]
fn video_gives_one_original_download() {
    let r = extract(r#"<meta name="og:video" content="https://v/clip.mp4">"#);
    assert_eq!(r.downloads.len(), 1);
    assert_eq!(r.downloads[0].quality, "Original");
    assert_eq!(r.downloads[0].url, "https://v/clip.mp4");
}

#[test]
fn missing_or_empty_video_gives_no_download() {
    assert!(extract("<title>x</title>").downloads.is_empty());
    assert!(extract(r#"<meta name="og:video" content="">"#).downloads.is_empty());
    assert!(extract(r#"<meta name="og:video" content="   ">"#).downloads.is_empty());
}

#[test]
fn identifier_is_last_path_segment() {
    let r = extract(
        r#"<meta name="og:url" content="https://www.xiaohongshu.com/explore/64abc123">"#,
    );
    assert_eq!(r.note_id, "64abc123");
}

#[test]
fn identifier_is_empty_after_trailing_slash() {
    let r = extract(r#"<meta name="og:url" content="https://www.xiaohongshu.com/explore/">"#);
    assert_eq!(r.note_id, "");
}

#[test]
fn title_spans_lines_and_ignores_case() {
    let r = extract("<TITLE>\n  My post\n  here </Title>");
    assert_eq!(r.title, "My post\n  here");
}

#[test]
fn first_match_wins_for_single_fields() {
    let r = extract(
        r#"<meta name="description" content="first"><meta name="description" content="second">"#,
    );
    assert_eq!(r.desc, "first");
}

#[test]
fn full_page_fills_every_field() {
    let html = r#"<html><head>
<title> Trip notes </title>
<meta name="description" content="A day out">
<meta name="keywords" content="travel, food">
<meta name="og:video" content="https://v/1.mp4">
<meta name="og:url" content="https://www.xiaohongshu.com/explore/abc">
<meta name="og:videotime" content="00:42">
<meta name="og:title" content="Bob - Trip notes - site">
<meta name="og:image" content="https://img/a.jpg">
<meta name="og:xhs:note_like" content="1.2k">
<meta name="og:xhs:note_comment" content="34">
<meta name="og:xhs:note_collect" content="5">
</head></html>"#;
    let r = extract(html);
    assert_eq!(r.title, "Trip notes");
    assert_eq!(r.desc, "A day out");
    assert_eq!(r.keywords, "travel, food");
    assert_eq!(r.note_id, "abc");
    assert_eq!(r.duration, "00:42");
    assert_eq!(r.nickname, "Bob");
    assert_eq!(r.images, vec!["https://img/a.jpg".to_string()]);
    assert_eq!(r.engagement.likes, "1.2k");
    assert_eq!(r.engagement.comments, "34");
    assert_eq!(r.engagement.collects, "5");
    assert_eq!(r.downloads.len(), 1);
    assert_eq!(r.downloads[0].url, "https://v/1.mp4");
}

#[test]
fn truncated_markup_gives_empty_record() {
    assert_all_empty(&extract(r#"<title>no end <meta name="og:title" content="unterminated"#));
    assert_all_empty(&extract("\u{0}\u{ffff} plain text, no tags"));
}
