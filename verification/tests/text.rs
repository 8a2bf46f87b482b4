use allscreenshots_cli::error::CliError;
use allscreenshots_cli::files::{auto_filename, batch_output_path, parse_url_lines, timestamped_filename, trim_str};
use allscreenshots_cli::format::{format_duration_ms, format_file_size, truncate_url};
use allscreenshots_cli::strutil::{starts_with, str_eq, u64_to_string};
use allscreenshots_cli::url::{extract_domain, normalize_url};

#[test]
fn test_normalize_url() {
    assert_eq!(normalize_url("google.com").unwrap(), "https://google.com");
    assert_eq!(normalize_url("https://github.com").unwrap(), "https://github.com");
    assert_eq!(normalize_url("http://example.com").unwrap(), "http://example.com");
}

#[test]
fn test_extract_domain() {
    assert_eq!(extract_domain("https://www.google.com/search"), "www_google_com");
    assert_eq!(extract_domain("https://github.com"), "github_com");
}

#[test]
fn test_format_file_size() {
    assert_eq!(format_file_size(500), "500 bytes");
    assert_eq!(format_file_size(1024), "1.00 KB");
    assert_eq!(format_file_size(1024 * 1024), "1.00 MB");
}

#[test]
fn test_format_duration_ms() {
    assert_eq!(format_duration_ms(500), "500ms");
    assert_eq!(format_duration_ms(1500), "1.5s");
    assert_eq!(format_duration_ms(65000), "1m 5s");
}

#[test]
fn normalize_rejects_unparseable_prefixed_text() {
    match normalize_url("exa mple.com") {
        Err(CliError::InvalidUrl(u)) => assert_eq!(u, "exa mple.com"),
        other => panic!("unexpected: {:?}", other),
    }
}

#[test]
fn domain_falls_back_without_host() {
    assert_eq!(extract_domain("not a url at all"), "screenshot");
}

#[test]
fn file_size_scales_to_gigabytes() {
    assert_eq!(format_file_size(1024 * 1024 * 1024), "1.00 GB");
    assert_eq!(format_file_size(1536), "1.50 KB");
    assert_eq!(format_file_size(0), "0 bytes");
}

#[test]
fn duration_carries_at_unit_boundaries() {
    assert_eq!(format_duration_ms(999), "999ms");
    assert_eq!(format_duration_ms(1000), "1.0s");
    assert_eq!(format_duration_ms(59999), "60.0s");
    assert_eq!(format_duration_ms(60000), "1m 0s");
    assert_eq!(format_duration_ms(125000), "2m 5s");
}

#[test]
fn url_truncation_keeps_short_texts() {
    assert_eq!(truncate_url("https://a.com", 50), "https://a.com");
    assert_eq!(truncate_url("https://example.com/abcdef", 10), "https:/...");
}

#[test]
fn batch_paths_use_index_and_domain() {
    assert_eq!(
        batch_output_path("./screenshots", "https://github.com", 0, "png"),
        "./screenshots/001_github_com.png"
    );
    assert_eq!(
        batch_output_path("out", "https://www.google.com/search", 41, "webp"),
        "out/042_www_google_com.webp"
    );
    assert_eq!(
        batch_output_path("out", "https://a.io", 999, "png"),
        "out/1000_a_io.png"
    );
}

#[test]
fn stamped_names_compose_exactly() {
    assert_eq!(
        timestamped_filename("github_com", "20240101_120000", "png"),
        "github_com_20240101_120000.png"
    );
}

#[test]
fn auto_names_carry_domain_and_extension() {
    let name = auto_filename("https://github.com", "png");
    assert!(name.starts_with("github_com_"));
    assert!(name.ends_with(".png"));
    assert!(name.len() > "github_com_.png".len());
}

#[test]
fn url_lists_are_trimmed_and_filtered() {
    let content = "https://a.com\n  https://b.com  \n\n# a comment\n\thttps://c.com\r\n";
    let urls = parse_url_lines(content, "urls.txt").unwrap();
    assert_eq!(urls, vec!["https://a.com", "https://b.com", "https://c.com"]);
}

#[test]
fn url_list_without_final_newline_keeps_last_line() {
    let urls = parse_url_lines("https://a.com\nhttps://b.com", "urls.txt").unwrap();
    assert_eq!(urls, vec!["https://a.com", "https://b.com"]);
}

#[test]
fn empty_url_list_is_reported_with_its_source() {
    match parse_url_lines("# only comments\n\n", "urls.txt") {
        Err(CliError::Other(m)) => assert_eq!(m, "No URLs found in urls.txt"),
        other => panic!("unexpected: {:?}", other),
    }
}

#[test]
fn trimming_strips_whitespace() {
    assert_eq!(trim_str("  hello \t"), "hello");
    assert_eq!(trim_str("\r\r"), "");
    assert_eq!(trim_str("plain"), "plain");
    assert_eq!(trim_str("\u{00A0}spaced out\u{3000}"), "spaced out");
}

#[test]
fn string_helpers_behave() {
    assert!(str_eq("abc", "abc"));
    assert!(!str_eq("abc", "abd"));
    assert!(!str_eq("abc", "ab"));
    assert!(starts_with("https://x", "https://"));
    assert!(!starts_with("http://x", "https://"));
    assert_eq!(u64_to_string(0), "0");
    assert_eq!(u64_to_string(90210), "90210");
}
