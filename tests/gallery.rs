use media_gallery::classify::{contains_text, determine_media, MediaGroup};
use media_gallery::options::{ArgError, RunOptions};
use media_gallery::render::{media_label, media_rows, page_output, render_page, RenderError};
use media_gallery::scan::{gather_files, MediaFile, ScanError};

fn listing(names: &[&str]) -> Vec<Option<String>> {
    names.iter().map(|n| Some(n.to_string())).collect()
}

fn scan(names: &[&str]) -> Vec<MediaFile> {
    let mut files = Vec::new();
    assert_eq!(gather_files(&listing(names), &mut files), Ok(()));
    files
}

fn tuples(files: &[MediaFile]) -> std::collections::BTreeSet<(String, String, String)> {
    files
        .iter()
        .map(|f| (f.filename().clone(), f.mime_type().clone(), media_label(f.media()).to_string()))
        .collect()
}

#[test]
fn contains_text_finds_runs() {
    assert!(contains_text("audio/mpeg", "audio"));
    assert!(contains_text("x-video", "video"));
    assert!(contains_text("abc", ""));
    assert!(!contains_text("aud", "audio"));
    assert!(!contains_text("audi o", "audio"));
    assert!(!contains_text("", "a"));
}

#[test]
fn audio_mime_is_audio() {
    assert_eq!(determine_media(&"audio/mpeg".to_string()), MediaGroup::Audio);
    assert_eq!(determine_media(&"audio/x-wav".to_string()), MediaGroup::Audio);
}

#[test]
fn video_mime_is_video() {
    assert_eq!(determine_media(&"video/mp4".to_string()), MediaGroup::Video);
}

#[test]
fn other_mime_is_unknown() {
    assert_eq!(determine_media(&"text/plain".to_string()), MediaGroup::Unknown);
    assert_eq!(determine_media(&"application/octet-stream".to_string()), MediaGroup::Unknown);
    assert_eq!(determine_media(&String::new()), MediaGroup::Unknown);
}

#[test]
fn audio_wins_over_video() {
    assert_eq!(determine_media(&"video/audio".to_string()), MediaGroup::Audio);
}

#[test]
fn describe_entry_guesses_mime_type() {
    let f = MediaFile::describe_entry("song.mp3".to_string());
    assert_eq!(f.filename(), "song.mp3");
    assert_eq!(f.mime_type(), "audio/mpeg");
    assert_eq!(f.comment(), "");
    assert_eq!(f.media(), MediaGroup::Audio);
}

#[test]
fn unknown_extension_is_octet_stream() {
    let f = MediaFile::describe_entry("data.zzzunknown".to_string());
    assert_eq!(f.mime_type(), "application/octet-stream");
    assert_eq!(f.media(), MediaGroup::Unknown);
    let g = MediaFile::describe_entry("README".to_string());
    assert_eq!(g.mime_type(), "application/octet-stream");
}

#[test]
fn song_clip_notes_scenario() {
    let files = scan(&["song.mp3", "clip.mp4", "notes.txt"]);
    assert_eq!(files.len(), 3);
    assert_eq!(files[0].filename(), "song.mp3");
    assert_eq!(files[0].media(), MediaGroup::Audio);
    assert_eq!(files[1].filename(), "clip.mp4");
    assert_eq!(files[1].media(), MediaGroup::Video);
    assert_eq!(files[2].filename(), "notes.txt");
    assert_eq!(files[2].media(), MediaGroup::Unknown);
}

#[test]
fn one_descriptor_per_entry() {
    let names = ["a.ogg", "b.webm", "c", "d.png", "sub"];
    let files = scan(&names);
    assert_eq!(files.len(), names.len());
    for (f, n) in files.iter().zip(names.iter()) {
        assert_eq!(f.filename(), n);
        assert!(!f.filename().is_empty());
        assert_eq!(f.comment(), "");
    }
}

#[test]
fn empty_listing_gives_no_descriptors() {
    assert!(scan(&[]).is_empty());
}

#[test]
fn gather_appends_after_existing() {
    let mut files = vec![MediaFile::describe_entry("first.mp3".to_string())];
    assert_eq!(gather_files(&listing(&["second.mp4"]), &mut files), Ok(()));
    assert_eq!(files.len(), 2);
    assert_eq!(files[0].filename(), "first.mp3");
    assert_eq!(files[1].filename(), "second.mp4");
}

#[test]
fn unnamed_entry_stops_scan() {
    let entries = vec![Some("song.mp3".to_string()), None, Some("clip.mp4".to_string())];
    let mut files = Vec::new();
    assert_eq!(gather_files(&entries, &mut files), Err(ScanError::UnnamedEntry(1)));
    assert!(files.is_empty());
}

#[test]
fn empty_name_counts_as_unnamed() {
    let entries = vec![Some("song.mp3".to_string()), Some(String::new()), None];
    let mut files = vec![MediaFile::describe_entry("keep.mp3".to_string())];
    assert_eq!(gather_files(&entries, &mut files), Err(ScanError::UnnamedEntry(1)));
    assert_eq!(files.len(), 1);
    assert_eq!(files[0].filename(), "keep.mp3");
}

#[test]
fn scan_is_order_free() {
    let a = scan(&["song.mp3", "clip.mp4", "notes.txt"]);
    let b = scan(&["notes.txt", "song.mp3", "clip.mp4"]);
    assert_eq!(tuples(&a), tuples(&b));
    let c = scan(&["song.mp3", "clip.mp4", "notes.txt"]);
    assert_eq!(tuples(&a), tuples(&c));
}

#[test]
fn copy_without_target_is_refused() {
    let r = RunOptions::new("media".to_string(), None, true);
    assert!(matches!(r, Err(ArgError::CopyWithoutTarget)));
}

#[test]
fn copy_with_target_is_accepted() {
    let o = RunOptions::new("media".to_string(), Some("out".to_string()), true).ok().unwrap();
    assert_eq!(o.source(), "media");
    assert_eq!(o.target_dir(), &Some("out".to_string()));
    assert!(o.copy_media_files());
}

#[test]
fn no_copy_needs_no_target() {
    let o = RunOptions::new("media".to_string(), None, false).ok().unwrap();
    assert_eq!(o.target_dir(), &None);
    assert!(!o.copy_media_files());
}

#[test]
fn labels_of_groups() {
    assert_eq!(media_label(MediaGroup::Audio), "Audio");
    assert_eq!(media_label(MediaGroup::Video), "Video");
    assert_eq!(media_label(MediaGroup::Unknown), "Unknown");
}

#[test]
fn rows_follow_files() {
    let files = scan(&["song.mp3", "notes.txt"]);
    let rows = media_rows(&files);
    assert_eq!(
        rows,
        vec![
            ("song.mp3".to_string(), "audio/mpeg".to_string(), String::new(), "Audio".to_string()),
            ("notes.txt".to_string(), "text/plain".to_string(), String::new(), "Unknown".to_string()),
        ]
    );
}

#[test]
fn empty_page_holds_title_and_no_entries() {
    let html = render_page("Holiday clips", &Vec::new()).unwrap();
    assert!(html.contains("<html>"));
    assert!(html.contains("</html>"));
    assert!(html.contains("<title>Holiday clips</title>"));
    assert!(!html.contains("<section"));
    assert!(!html.contains("<audio"));
    assert!(!html.contains("<video"));
}

#[test]
fn page_picks_viewer_by_group() {
    let files = scan(&["song.mp3", "clip.mp4", "notes.txt"]);
    let html = render_page("Gallery", &files).unwrap();
    assert_eq!(html.matches("<section").count(), 3);
    // the template engine escapes '/' inside values
    assert!(html.contains("<audio controls src=\"song.mp3\" type=\"audio&#x2F;mpeg\">"));
    assert!(html.contains("<video controls src=\"clip.mp4\" type=\"video&#x2F;mp4\">"));
    assert!(html.contains("<a href=\"notes.txt\">notes.txt</a>"));
}

#[test]
fn page_escapes_title() {
    let html = render_page("a <b>", &Vec::new()).unwrap();
    assert!(html.contains("a &lt;b&gt;"));
}

#[test]
fn output_is_page_or_message() {
    assert_eq!(page_output(Ok("<html></html>".to_string())), "<html></html>");
    assert_eq!(page_output(Err(RenderError::Template("bad".to_string()))), "bad");
}
