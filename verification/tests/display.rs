use download_manager::pane::{submission_input, trimmed, DownloaderPane};
use download_manager::render::{
    elapsed_secs, format_duration, status_color, status_label, u64_dec, StatusColor,
};
use download_manager::state::DownloadState;
use download_manager::summary::{contains_pat, failure_summary, line_is_blank};

fn lines(items: &[&str]) -> Vec<String> {
    items.iter().map(|s| s.to_string()).collect()
}

#[test]
fn summary_is_last_informative_line() {
    let logs = lines(&["", "connecting...", "yt-dlp exited with code 1"]);
    assert_eq!(failure_summary(&logs), "connecting...");
}

#[test]
fn summary_placeholder_when_only_generic_line() {
    let logs = lines(&["yt-dlp exited with code 1"]);
    assert_eq!(failure_summary(&logs), "Unknown error");
}

#[test]
fn summary_placeholder_when_empty() {
    assert_eq!(failure_summary(&Vec::new()), "Unknown error");
    assert_eq!(failure_summary(&lines(&["", "  \t", ""])), "Unknown error");
}

#[test]
fn summary_skips_trailing_blanks_and_generic_lines() {
    let logs = lines(&[
        "downloading 10%",
        "ERROR: video unavailable",
        "   ",
        "yt-dlp exited with code 1",
        "",
    ]);
    assert_eq!(failure_summary(&logs), "ERROR: video unavailable");
}

#[test]
fn blank_and_pattern_checks() {
    assert!(line_is_blank(""));
    assert!(line_is_blank(" \t\r\n"));
    assert!(!line_is_blank(" x "));
    assert!(contains_pat("oh yt-dlp exited with code 3", "yt-dlp exited with code"));
    assert!(!contains_pat("something else", "yt-dlp exited with code"));
    assert!(contains_pat("abc", ""));
}

#[test]
fn decimal_rendering() {
    assert_eq!(u64_dec(0), "0");
    assert_eq!(u64_dec(7), "7");
    assert_eq!(u64_dec(60), "60");
    assert_eq!(u64_dec(12345), "12345");
    assert_eq!(u64_dec(u64::MAX), "18446744073709551615");
}

#[test]
fn duration_formatting() {
    assert_eq!(format_duration(0), "0s");
    assert_eq!(format_duration(59), "59s");
    assert_eq!(format_duration(60), "1m 0s");
    assert_eq!(format_duration(125), "2m 5s");
}

#[test]
fn elapsed_never_underflows() {
    assert_eq!(elapsed_secs(100, 40), 60);
    assert_eq!(elapsed_secs(40, 100), 0);
}

#[test]
fn status_labels_and_colors() {
    let queued = DownloadState::Queued;
    let downloading = DownloadState::Downloading { started_at: 100 };
    let completed = DownloadState::Completed { path: "/out/v.mp4".to_string() };
    let already = DownloadState::AlreadyDownloaded { path: "/out/v.mp4".to_string() };
    let failed = DownloadState::Failed {
        logs: lines(&["", "connecting...", "yt-dlp exited with code 1"]),
    };
    let canceled = DownloadState::Canceled;

    assert_eq!(status_label(&queued, 100), "Queued");
    assert_eq!(status_label(&downloading, 145), "Downloading... (45s)");
    assert_eq!(status_label(&downloading, 225), "Downloading... (2m 5s)");
    assert_eq!(status_label(&completed, 100), "Completed");
    assert_eq!(status_label(&already, 100), "Already Downloaded");
    assert_eq!(status_label(&failed, 100), "Failed: connecting...");
    assert_eq!(status_label(&canceled, 100), "Canceled");

    assert_eq!(status_color(&queued), StatusColor::Gray);
    assert_eq!(status_color(&downloading), StatusColor::Yellow);
    assert_eq!(status_color(&completed), StatusColor::Green);
    assert_eq!(status_color(&already), StatusColor::Green);
    assert_eq!(status_color(&failed), StatusColor::Red);
    assert_eq!(status_color(&canceled), StatusColor::Gray);
}

#[test]
fn input_trimming() {
    assert_eq!(trimmed("  https://a \n"), "https://a");
    assert_eq!(trimmed("x"), "x");
    assert_eq!(trimmed("   \t "), "");
    assert_eq!(trimmed(""), "");
}

#[test]
fn confirmed_input_submits_only_nonblank() {
    assert_eq!(submission_input(" https://a "), Some("https://a".to_string()));
    assert_eq!(submission_input("   "), None);
    assert_eq!(submission_input(""), None);
}

#[test]
fn pane_owns_its_buffer() {
    let pane = DownloaderPane::new(3);
    assert_eq!(pane.input_id(), 3);
}
