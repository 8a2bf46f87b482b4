use allscreenshots_cli::args::{AsyncArgs, CaptureArgs};
use allscreenshots_cli::devices::device_presets;
use allscreenshots_cli::error::{CliError, SdkError, SdkErrorKind};
use allscreenshots_cli::gallery::{is_image_extension, select_gallery_indices, thumbnail_size};
use allscreenshots_cli::graphs::{bar_color, compute_bar, UsageGraph};
use allscreenshots_cli::job::{JobSnapshot, JobStatus};
use allscreenshots_cli::progress::SpinnerStyle;
use allscreenshots_cli::request::{
    parse_batch_format, parse_block_level, parse_display_format, parse_format, parse_layout,
    parse_wait_until, BlockLevel, ImageFormat, LayoutType, WaitUntil,
};
use allscreenshots_cli::shell::{completion_instructions, parse_shell, shell_name, Shell};

#[test]
fn test_format_number() {
    assert_eq!(UsageGraph::format_number_i32(1000), "1,000");
    assert_eq!(UsageGraph::format_number_i32(1000000), "1,000,000");
    assert_eq!(UsageGraph::format_number_i32(42), "42");
}

#[test]
fn numbers_group_at_both_widths() {
    assert_eq!(UsageGraph::format_number_i64(1234567890123), "1,234,567,890,123");
    assert_eq!(UsageGraph::format_number_i32(-1234), "-1,234");
    assert_eq!(UsageGraph::format_number_i64(0), "0");
}

#[test]
fn no_comma_lands_beside_the_sign() {
    assert_eq!(UsageGraph::format_number_i32(-100), "-100");
    assert_eq!(UsageGraph::format_number_i32(-123456), "-123,456");
    assert_eq!(UsageGraph::format_number_i32(100), "100");
}

#[test]
fn bars_fill_by_share_of_quota() {
    let bar = compute_bar(50, 100, 40);
    assert_eq!(bar.percent, 50);
    assert_eq!(bar.filled, 20);
    assert_eq!(bar.empty, 20);
    let over = compute_bar(150, 100, 40);
    assert_eq!(over.percent, 150);
    assert_eq!(over.filled, 40);
    assert_eq!(over.empty, 0);
    let empty = compute_bar(10, 0, 40);
    assert_eq!(empty.percent, 0);
    assert_eq!(empty.filled, 0);
    assert_eq!(empty.empty, 40);
}

#[test]
fn bar_colors_track_usage() {
    assert_eq!(bar_color(95), "red");
    assert_eq!(bar_color(90), "red");
    assert_eq!(bar_color(80), "yellow");
    assert_eq!(bar_color(74), "green");
}

#[test]
fn sparklines_scale_to_their_maximum() {
    assert_eq!(UsageGraph::render_sparkline(&vec![1, 2, 4, 8]), "▁▂▄█");
    assert_eq!(UsageGraph::render_sparkline(&vec![0, 8, 8]), " ██");
    assert_eq!(UsageGraph::render_sparkline(&vec![5]), "█");
}

#[test]
fn formats_parse_case_insensitively() {
    assert_eq!(parse_format("PNG").unwrap(), ImageFormat::Png);
    assert_eq!(parse_format("jpg").unwrap(), ImageFormat::Jpeg);
    assert_eq!(parse_format("jpeg").unwrap(), ImageFormat::Jpeg);
    assert_eq!(parse_format("webp").unwrap(), ImageFormat::Webp);
    assert_eq!(parse_format("pdf").unwrap(), ImageFormat::Pdf);
    match parse_format("bmp") {
        Err(CliError::Other(m)) => {
            assert_eq!(m, "Invalid format 'bmp'. Use: png, jpeg, webp, or pdf");
        }
        other => panic!("unexpected: {:?}", other),
    }
}

#[test]
fn batch_format_failure_is_brief() {
    match parse_batch_format("bmp") {
        Err(CliError::Other(m)) => assert_eq!(m, "Invalid format: bmp"),
        other => panic!("unexpected: {:?}", other),
    }
}

#[test]
fn watch_formats_exclude_pdf() {
    assert_eq!(parse_display_format("png").unwrap(), ImageFormat::Png);
    match parse_display_format("pdf") {
        Err(CliError::Other(m)) => assert_eq!(m, "Invalid format: pdf"),
        other => panic!("unexpected: {:?}", other),
    }
}

#[test]
fn wait_conditions_parse() {
    assert_eq!(parse_wait_until("load").unwrap(), WaitUntil::Load);
    assert_eq!(parse_wait_until("DOMContentLoaded").unwrap(), WaitUntil::DomContentLoaded);
    assert_eq!(parse_wait_until("networkidle").unwrap(), WaitUntil::NetworkIdle);
    assert_eq!(parse_wait_until("commit").unwrap(), WaitUntil::Commit);
    match parse_wait_until("later") {
        Err(CliError::Other(m)) => {
            assert_eq!(
                m,
                "Invalid wait_until 'later'. Use: load, domcontentloaded, networkidle, or commit"
            );
        }
        other => panic!("unexpected: {:?}", other),
    }
}

#[test]
fn block_levels_parse_with_alias() {
    assert_eq!(parse_block_level("none").unwrap(), BlockLevel::Off);
    assert_eq!(parse_block_level("pro_plus").unwrap(), BlockLevel::ProPlus);
    assert_eq!(parse_block_level("ProPlus").unwrap(), BlockLevel::ProPlus);
    assert_eq!(parse_block_level("ultimate").unwrap(), BlockLevel::Ultimate);
    match parse_block_level("max") {
        Err(CliError::Other(m)) => {
            assert_eq!(
                m,
                "Invalid block_level 'max'. Use: none, light, normal, pro, pro_plus, or ultimate"
            );
        }
        other => panic!("unexpected: {:?}", other),
    }
}

#[test]
fn layouts_parse() {
    assert_eq!(parse_layout("grid").unwrap(), LayoutType::Grid);
    assert_eq!(parse_layout("AUTO").unwrap(), LayoutType::Auto);
    assert_eq!(parse_layout("mondrian").unwrap(), LayoutType::Mondrian);
    match parse_layout("circle") {
        Err(CliError::Other(m)) => {
            assert_eq!(
                m,
                "Invalid layout 'circle'. Use: grid, horizontal, vertical, masonry, mondrian, partitioning, or auto"
            );
        }
        other => panic!("unexpected: {:?}", other),
    }
}

#[test]
fn shells_parse_with_abbreviation() {
    assert_eq!(parse_shell("bash").unwrap(), Shell::Bash);
    assert_eq!(parse_shell("PS").unwrap(), Shell::PowerShell);
    assert_eq!(parse_shell("elvish").unwrap(), Shell::Elvish);
    match parse_shell("csh") {
        Err(CliError::Other(m)) => {
            assert_eq!(m, "Unknown shell 'csh'. Supported: bash, zsh, fish, powershell, elvish");
        }
        other => panic!("unexpected: {:?}", other),
    }
    assert_eq!(shell_name(Shell::Zsh), "zsh");
    assert!(completion_instructions(Shell::Bash).contains("~/.bashrc"));
}

#[test]
fn spinner_presets_have_their_ticks() {
    assert_eq!(SpinnerStyle::Dots.tick_chars(), "⠋⠙⠹⠸⠼⠴⠦⠧⠇⠏");
    assert_eq!(SpinnerStyle::Line.tick_chars(), "|/-\\");
}

#[test]
fn device_preset_table() {
    let presets = device_presets();
    assert_eq!(presets.len(), 16);
    assert_eq!(presets[0], ("Desktop HD", "1920x1080"));
    assert_eq!(presets[15], ("Android Small", "360x800"));
}

#[test]
fn gallery_rules() {
    assert!(is_image_extension("PNG"));
    assert!(is_image_extension("gif"));
    assert!(!is_image_extension("txt"));
    assert_eq!(thumbnail_size("medium"), (60, 15));
    assert_eq!(thumbnail_size("small"), (40, 10));
    assert_eq!(thumbnail_size("anything"), (40, 10));
}

fn gallery_job(status: JobStatus, with_result: bool) -> JobSnapshot {
    JobSnapshot {
        id: "j".to_string(),
        status,
        url: None,
        result_url: if with_result { Some("r".to_string()) } else { None },
        error_code: None,
        error_message: None,
        created_at: None,
        started_at: None,
        completed_at: None,
        expires_at: None,
    }
}

#[test]
fn gallery_selects_completed_jobs_up_to_the_limit() {
    let jobs = vec![
        gallery_job(JobStatus::Completed, true),
        gallery_job(JobStatus::Failed, false),
        gallery_job(JobStatus::Completed, false),
        gallery_job(JobStatus::Completed, true),
        gallery_job(JobStatus::Completed, true),
    ];
    assert_eq!(select_gallery_indices(&jobs, 10), vec![0, 3, 4]);
    assert_eq!(select_gallery_indices(&jobs, 2), vec![0, 3]);
    assert_eq!(select_gallery_indices(&jobs, 0), Vec::<usize>::new());
}

#[test]
fn display_decisions() {
    let mut args = AsyncArgs {
        url: "https://a.com".to_string(),
        output: None,
        device: None,
        format: "png".to_string(),
        full_page: false,
        poll: true,
        no_poll: false,
        poll_interval: 2,
        display: false,
        no_display: false,
    };
    assert!(args.should_poll());
    assert!(args.should_display());
    args.no_poll = true;
    assert!(!args.should_poll());
    args.output = Some("a.png".to_string());
    assert!(!args.should_display());
    args.display = true;
    assert!(args.should_display());
    args.no_display = true;
    assert!(!args.should_display());
}

#[test]
fn capture_display_decision_matches() {
    let args = CaptureArgs {
        url: "https://a.com".to_string(),
        output: Some("a.png".to_string()),
        device: None,
        width: None,
        height: None,
        format: "png".to_string(),
        full_page: false,
        quality: None,
        delay: None,
        wait_for: None,
        wait_until: None,
        dark_mode: false,
        block_ads: false,
        block_cookies: false,
        block_level: None,
        selector: None,
        custom_css: None,
        display: false,
        no_display: false,
        clipboard: false,
    };
    assert!(!args.should_display());
}

#[test]
fn friendly_errors_read_well() {
    let text = CliError::NoApiKey.format_friendly();
    assert!(text.starts_with("No API key found!"));
    assert!(text.contains("ALLSCREENSHOTS_API_KEY"));
    let invalid = CliError::InvalidUrl("x y".to_string()).format_friendly();
    assert_eq!(
        invalid,
        "Invalid URL!\n\n'x y' is not a valid URL.\n  URLs should start with http:// or https://"
    );
    let api = CliError::Sdk(SdkError::Api {
        kind: SdkErrorKind::Internal,
        message: "server exploded".to_string(),
        status: 500,
    })
    .format_friendly();
    assert_eq!(api, "API Error (HTTP 500)\n\nserver exploded");
    let unauthorized = CliError::Sdk(SdkError::Api {
        kind: SdkErrorKind::Unauthorized,
        message: "bad key".to_string(),
        status: 401,
    })
    .format_friendly();
    assert!(unauthorized.starts_with("Authentication failed!"));
    assert!(unauthorized.contains("bad key"));
    let timeout = CliError::Sdk(SdkError::Http {
        timeout: true,
        connect: false,
        message: "slow".to_string(),
    })
    .format_friendly();
    assert!(timeout.starts_with("Request timed out!"));
}

#[test]
fn job_status_vocabulary() {
    assert!(JobStatus::Completed.is_terminal());
    assert!(JobStatus::Failed.is_terminal());
    assert!(JobStatus::Cancelled.is_terminal());
    assert!(!JobStatus::Queued.is_terminal());
    assert!(!JobStatus::Processing.is_terminal());
    assert_eq!(JobStatus::Completed.icon(), "✓");
    assert_eq!(JobStatus::Failed.color(), "red");
    assert_eq!(JobStatus::Queued.name(), "Queued");
}
