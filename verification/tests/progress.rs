use ytdlp_ty::progress::{
    expects_merge, is_already_downloaded_line, is_merge_line, parse_progress_parts, PassState,
};

#[test]
fn recognizes_the_skipped_file_line() {
    assert!(is_already_downloaded_line(
        "[download] /Users/me/Downloads/yt-dlp/pornhub/Clip.mp4 has already been downloaded"
    ));
    assert!(is_already_downloaded_line(
        "[download] /Users/me/Clip.mkv has already been downloaded and merged"
    ));
}

#[test]
fn ordinary_lines_are_not_mistaken_for_a_skip() {
    assert!(!is_already_downloaded_line("[download] Destination: /Users/me/Clip.mp4"));
    assert!(!is_already_downloaded_line("dl:abc|downloading|1024|2048|NA|NA|NA"));
    assert!(!is_already_downloaded_line("[download] How I downloaded a file.mp4"));
}

#[test]
fn skip_line_is_neither_progress_nor_merge() {
    let line = "[download] /Users/me/Clip.mp4 has already been downloaded";
    assert!(parse_progress_parts(line).is_none());
    assert!(!is_merge_line(line));
}

#[test]
fn progress_line_fields_are_split_in_template_order() {
    let p = parse_progress_parts("dl:abc|downloading|1024|2048|NA|512.5|None").unwrap();
    assert_eq!(p.status, "downloading");
    assert_eq!(p.downloaded_bytes.as_deref(), Some("1024"));
    assert_eq!(p.total_bytes.as_deref(), Some("2048"));
    assert_eq!(p.total_bytes_estimate, None);
    assert_eq!(p.speed_bps.as_deref(), Some("512.5"));
    assert_eq!(p.eta_seconds, None);
    let p = parse_progress_parts("dl:x|finished||||||extra").unwrap();
    assert_eq!(p.status, "finished");
    assert_eq!(p.downloaded_bytes, None);
    assert!(parse_progress_parts("dl:a|b|c|d|e|f").is_none());
    assert!(parse_progress_parts("xdl:a|b|c|d|e|f|g").is_none());
}

#[test]
fn merge_lines_are_recognized() {
    assert!(is_merge_line("[Merger] Merging formats into \"x.mkv\""));
    assert!(is_merge_line("[ffmpeg] Fixing container"));
    assert!(!is_merge_line("[download] 50%"));
}

fn strs(v: &[&str]) -> Vec<String> {
    v.iter().map(|s| s.to_string()).collect()
}

#[test]
fn merge_prediction_follows_the_selector() {
    assert!(expects_merge(&strs(&["-v"])));
    assert!(expects_merge(&strs(&["-f", "bestvideo+bestaudio/best"])));
    assert!(!expects_merge(&strs(&["-f", "18"])));
    assert!(!expects_merge(&strs(&["--format", "140", "-f", "1+2"])));
    assert!(expects_merge(&strs(&["-x", "-f"])));
}

#[test]
fn pass_bands_advance_once_per_finished_run() {
    let mut s = PassState::new(true);
    assert_eq!(s.bounds(), (0, 50));
    s.advance("downloading");
    assert_eq!(s.bounds(), (0, 50));
    s.advance("finished");
    assert_eq!(s.bounds(), (50, 95));
    s.advance("finished");
    assert_eq!(s.bounds(), (50, 95));
    s.advance("downloading");
    s.advance("finished");
    assert_eq!(s.bounds(), (95, 100));
    let mut m = PassState::new(true);
    m.enter_merge();
    assert_eq!(m.bounds(), (95, 100));
    let mut single = PassState::new(false);
    single.advance("finished");
    single.enter_merge();
    assert_eq!(single.bounds(), (0, 100));
}
