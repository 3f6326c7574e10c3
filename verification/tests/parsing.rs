//! Text-level behaviour: progress lines, sanitization, query escaping,
//! upload dates, URLs and listing normalization.

use mediaflow::adapter::{
    normalize_patreon_row, normalize_youtube_row, parse_metadata_output, parse_patreon_listing,
    parse_youtube_listing, patreon_posts_url, stderr_is_auth_error, youtube_watch_url,
    PatreonFetcher, RawListingRow, YouTubeFetcher,
};
use mediaflow::numbers::u64_to_string;
use mediaflow::progress::parse_progress_line;
use mediaflow::sanitize::{build_import_path, build_output_path, escape_fts_query, sanitize_filename};

fn empty_raw_row() -> RawListingRow {
    RawListingRow {
        id: None,
        title: None,
        thumbnail: None,
        first_thumbnail_url: None,
        duration_seconds: None,
        upload_date: None,
        timestamp: None,
        release_timestamp: None,
        url_basename: None,
    }
}

#[test]
fn progress_line_parses_percent_and_speed() {
    let line = "[download]  50.0% of 100.00MiB at 5.00MiB/s ETA 00:10";
    let (percent, speed) = parse_progress_line(line).expect("progress line should parse");
    assert_eq!(percent.milli, 50_000);
    assert!((percent.milli as f64) / 1000.0 == 50.0);
    assert_eq!(speed, "5.00MiB/s");
}

#[test]
fn progress_line_with_tilde_size_parses() {
    let line = "[download]  12.5% of ~100.00MiB at 2.50MiB/s ETA 01:10";
    let (percent, speed) = parse_progress_line(line).expect("progress line should parse");
    assert_eq!(percent.milli, 12_500);
    assert_eq!(speed, "2.50MiB/s");
}

#[test]
fn progress_line_without_percent_gives_nothing() {
    assert!(parse_progress_line("[download] Destination: out.mp4").is_none());
}

#[test]
fn progress_line_without_speed_reports_unknown() {
    let line = "[download] 100%";
    let (percent, speed) = parse_progress_line(line).expect("progress line should parse");
    assert_eq!(percent.milli, 100_000);
    assert_eq!(speed, "Unknown");
}

#[test]
fn progress_line_with_garbage_percent_gives_nothing() {
    assert!(parse_progress_line("[download]  abc% of x at 1MiB/s").is_none());
}

#[test]
fn sanitize_replaces_separators_and_trims() {
    assert_eq!(sanitize_filename("a/b\\c"), "a_b_c");
    assert_eq!(sanitize_filename("  hello world. "), "hello world");
    assert_eq!(sanitize_filename("name?.."), "name_");
    assert_eq!(sanitize_filename("tab\there"), "tab_here");
}

#[test]
fn sanitize_cuts_to_one_hundred_characters() {
    let long: String = std::iter::repeat('x').take(150).collect();
    let out = sanitize_filename(&long);
    assert_eq!(out.chars().count(), 100);
}

#[test]
fn escape_fts_builds_prefix_queries() {
    assert_eq!(escape_fts_query("hello world"), "hello* world*");
    assert_eq!(escape_fts_query("c++ (rust)"), "c* rust*");
    assert_eq!(escape_fts_query("   "), "");
    assert_eq!(escape_fts_query("\"quoted\""), "quoted*");
}

#[test]
fn upload_date_converts_to_iso() {
    assert_eq!(
        YouTubeFetcher::parse_upload_date("20230501").as_deref(),
        Some("2023-05-01T00:00:00Z")
    );
    assert_eq!(
        PatreonFetcher::parse_upload_date("19991231").as_deref(),
        Some("1999-12-31T00:00:00Z")
    );
    assert!(YouTubeFetcher::parse_upload_date("2023").is_none());
    assert!(PatreonFetcher::parse_upload_date("202305011").is_none());
}

#[test]
fn watch_and_posts_urls() {
    assert_eq!(youtube_watch_url("abc123"), "https://www.youtube.com/watch?v=abc123");
    assert_eq!(
        patreon_posts_url("https://www.patreon.com/creator/"),
        "https://www.patreon.com/creator/posts"
    );
    assert_eq!(
        patreon_posts_url("https://www.patreon.com/creator/posts"),
        "https://www.patreon.com/creator/posts"
    );
}

#[test]
fn output_path_is_deterministic() {
    let path = build_output_path("/library", "The Creator", "youtube", "vid1", "My: Video");
    assert_eq!(path, "/library/The Creator/youtube/vid1__My_ Video.mp4");
    let import = build_import_path("/library", "C", "other", "T", "mkv");
    assert_eq!(import, "/library/C/other/T.mkv");
}

#[test]
fn decimal_rendering_is_plain() {
    assert_eq!(u64_to_string(0), "0");
    assert_eq!(u64_to_string(12345), "12345");
}

#[test]
fn auth_errors_are_recognized() {
    assert!(stderr_is_auth_error("ERROR: Unable to download webpage"));
    assert!(stderr_is_auth_error("HTTP Error 401: Unauthorized"));
    assert!(!stderr_is_auth_error("no such format"));
}

#[test]
fn youtube_rows_fall_back_for_thumbnail_and_timestamp() {
    let mut raw = empty_raw_row();
    raw.id = Some("v1".to_string());
    raw.title = Some("First".to_string());
    raw.first_thumbnail_url = Some("https://img/1.jpg".to_string());
    raw.timestamp = Some(0);
    let row = normalize_youtube_row(raw).expect("row should normalize");
    assert_eq!(row.thumbnail.as_deref(), Some("https://img/1.jpg"));
    assert_eq!(row.upload_date.as_deref(), Some("19700101"));
}

#[test]
fn youtube_rows_without_id_or_title_are_dropped() {
    let mut raw = empty_raw_row();
    raw.id = Some("".to_string());
    raw.title = Some("First".to_string());
    assert!(normalize_youtube_row(raw).is_none());
    let mut raw = empty_raw_row();
    raw.id = Some("v1".to_string());
    assert!(normalize_youtube_row(raw).is_none());
}

#[test]
fn patreon_title_comes_from_slug() {
    let mut raw = empty_raw_row();
    raw.id = Some("23710390".to_string());
    raw.url_basename = Some("lollipop-sucking-23710390".to_string());
    let row = normalize_patreon_row(raw).expect("row should normalize");
    assert_eq!(row.title, "Lollipop Sucking");
}

#[test]
fn patreon_slug_keeps_non_numeric_tail() {
    let mut raw = empty_raw_row();
    raw.id = Some("1".to_string());
    raw.url_basename = Some("my-great-post".to_string());
    let row = normalize_patreon_row(raw).expect("row should normalize");
    assert_eq!(row.title, "My Great Post");
}

#[test]
fn listing_output_parses_json_lines() {
    let stdout = "{\"id\":\"a1\",\"title\":\"Alpha\",\"duration\":63.5,\"upload_date\":\"20240102\"}\nnot json at all\n\n{\"id\":\"\",\"title\":\"No id\"}\n{\"id\":\"b2\",\"title\":\"Beta\",\"thumbnails\":[{\"url\":\"https://img/b.jpg\"}]}\n";
    let rows = parse_youtube_listing(stdout);
    assert_eq!(rows.len(), 2);
    assert_eq!(rows[0].id, "a1");
    assert_eq!(rows[0].title, "Alpha");
    assert_eq!(rows[0].duration, Some(63));
    assert_eq!(rows[0].upload_date.as_deref(), Some("20240102"));
    assert_eq!(rows[1].id, "b2");
    assert_eq!(rows[1].thumbnail.as_deref(), Some("https://img/b.jpg"));
}

#[test]
fn patreon_listing_uses_basename_titles() {
    let stdout = "{\"id\":\"99\",\"webpage_url_basename\":\"hello-world-99\"}\n";
    let rows = parse_patreon_listing(stdout).expect("non-blank output should parse");
    assert_eq!(rows.len(), 1);
    assert_eq!(rows[0].title, "Hello World");
}

#[test]
fn blank_patreon_listing_is_a_tool_failure() {
    assert!(parse_patreon_listing("").is_err());
    assert!(parse_patreon_listing(" \n\t\n").is_err());
    assert!(parse_patreon_listing("{\"id\":\"1\",\"title\":\"T\"}").is_ok());
}

#[test]
fn metadata_output_falls_back_to_the_requested_id() {
    let row = parse_metadata_output(
        "{\"title\":\"Full Title\",\"duration\":95.0,\"timestamp\":0}\n",
        "vid9",
    )
    .expect("metadata output should parse");
    assert_eq!(row.id, "vid9");
    assert_eq!(row.title, "Full Title");
    assert_eq!(row.duration, Some(95));
    assert_eq!(row.upload_date.as_deref(), Some("19700101"));
    assert!(parse_metadata_output("not json", "vid9").is_none());
}
