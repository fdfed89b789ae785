use ytdlp_ty::args::{
    apply_chosen_format, apply_mode, build_download_args_with, build_probe_args,
    expand_tilde_with, parse_parameters, strip_format_flag, ChosenFormat, DownloadRequest,
    PARSE_ERROR, PRINT_EXTRACTOR_TEMPLATE, PRINT_PATH_TEMPLATE, PROGRESS_TEMPLATE,
};

fn applied(parameters: &str, mode: &str) -> Vec<String> {
    apply_mode(parameters, mode).expect("expected parameters to parse")
}

#[test]
fn raw_mode_is_unmodified() {
    assert_eq!(applied("-v --no-playlist", "raw"), ["-v", "--no-playlist"]);
}

#[test]
fn best_video_strips_existing_format_flag_and_appends() {
    assert_eq!(
        applied("-v -f 22 --no-playlist", "bestVideo"),
        ["-v", "--no-playlist", "-f", "bestvideo+bestaudio/best"]
    );
}

#[test]
fn best_audio_strips_long_format_flag_and_extracts() {
    assert_eq!(
        applied("--format 140 --no-playlist", "bestAudio"),
        ["--no-playlist", "-f", "bestaudio/best", "-x"]
    );
}

#[test]
fn choose_format_defers_the_selector_to_per_url_application() {
    assert_eq!(applied("-f 22", "chooseFormat"), ["-f", "22"]);
}

#[test]
fn quoted_value_containing_spaces_survives_as_one_token() {
    assert_eq!(
        applied("--user-agent \"Mozilla 5.0\" --no-playlist", "raw"),
        ["--user-agent", "Mozilla 5.0", "--no-playlist"]
    );
}

#[test]
fn chosen_video_only_format_pairs_in_audio() {
    let chosen = ChosenFormat { format_id: "399".into(), video_only: true };
    assert_eq!(
        apply_chosen_format(&["--no-playlist".to_string()], &chosen),
        ["--no-playlist", "-f", "399+bestaudio/399"]
    );
}

#[test]
fn chosen_progressive_format_is_used_as_is() {
    let chosen = ChosenFormat { format_id: "18".into(), video_only: false };
    assert_eq!(apply_chosen_format(&[], &chosen), ["-f", "18"]);
}

#[test]
fn chosen_format_replaces_any_existing_selector() {
    let chosen = ChosenFormat { format_id: "18".into(), video_only: false };
    let existing = vec!["-f".to_string(), "22".to_string(), "-v".to_string()];
    assert_eq!(apply_chosen_format(&existing, &chosen), ["-v", "-f", "18"]);
}

#[test]
fn probe_args_carry_user_flags_and_proxy_but_no_download_flags() {
    let params = vec!["--cookies-from-browser".to_string(), "chrome".to_string()];
    let args = build_probe_args(&params, Some("http://127.0.0.1:7890"), "URL");
    assert_eq!(
        args,
        [
            "--cookies-from-browser",
            "chrome",
            "-j",
            "--no-color",
            "--ignore-no-formats-error",
            "--proxy",
            "http://127.0.0.1:7890",
            "URL"
        ]
    );
    assert!(!args.iter().any(|a| a == "-o" || a == "--progress-template"));
}

#[test]
fn probe_never_lets_format_selection_fail_the_listing() {
    let args = build_probe_args(&[], None, "URL");
    assert!(args.iter().any(|a| a == "--ignore-no-formats-error"));
}

#[test]
fn probe_args_omit_proxy_when_unset() {
    let args = build_probe_args(&[], Some("   "), "URL");
    assert!(!args.iter().any(|a| a == "--proxy"), "blank proxy should not be passed");
}

#[test]
fn parameters_may_be_written_one_flag_per_line() {
    assert_eq!(
        applied("--no-playlist\n--cookies-from-browser chrome\n\n  --write-sub  \n", "raw"),
        ["--no-playlist", "--cookies-from-browser", "chrome", "--write-sub"]
    );
}

#[test]
fn a_quoted_value_survives_a_following_line_break() {
    assert_eq!(
        applied("--user-agent \"Mozilla 5.0\"\n-v", "raw"),
        ["--user-agent", "Mozilla 5.0", "-v"]
    );
}

#[test]
fn unbalanced_quote_is_an_error_not_a_silent_drop() {
    for mode in ["raw", "bestVideo", "bestAudio", "chooseFormat"] {
        assert!(
            apply_mode("--user-agent \"Mozilla", mode).is_err(),
            "mode {mode} silently accepted malformed parameters"
        );
    }
}

#[test]
fn parse_error_message_names_the_likely_cause() {
    assert_eq!(parse_parameters("'open").unwrap_err(), PARSE_ERROR);
    assert_eq!(
        parse_parameters("a 'b c' d").unwrap(),
        ["a", "b c", "d"]
    );
}

#[test]
fn unknown_mode_only_strips_the_selector() {
    assert_eq!(applied("-v -f 22", "somethingElse"), ["-v"]);
}

#[test]
fn strip_format_flag_drops_a_trailing_flag_without_value() {
    let tokens = vec!["-v".to_string(), "--format".to_string()];
    assert_eq!(strip_format_flag(&tokens), ["-v"]);
    let tokens = vec!["-f".to_string(), "-f".to_string(), "x".to_string()];
    assert_eq!(strip_format_flag(&tokens), ["x"]);
}

#[test]
fn stripping_twice_is_stripping_once() {
    let tokens: Vec<String> =
        ["-f", "a", "-v", "--format", "b", "-f"].iter().map(|s| s.to_string()).collect();
    let once = strip_format_flag(&tokens);
    assert_eq!(strip_format_flag(&once), once);
}

#[test]
fn tilde_expands_against_home() {
    let home = Some("/home/me".to_string());
    assert_eq!(expand_tilde_with("~", home.clone()), "/home/me");
    assert_eq!(expand_tilde_with("~/Downloads/x", home.clone()), "/home/me/Downloads/x");
    assert_eq!(expand_tilde_with("~//abs", home.clone()), "/abs");
    assert_eq!(expand_tilde_with("/tmp/~/x", home.clone()), "/tmp/~/x");
    assert_eq!(expand_tilde_with("~user/x", home.clone()), "~user/x");
    assert_eq!(expand_tilde_with("~/x", Some("/root/".to_string())), "/root/x");
    assert_eq!(expand_tilde_with("~/x", None), "~/x");
}

#[test]
fn download_args_follow_the_fixed_order() {
    let req = DownloadRequest {
        url: "https://example.com/v".to_string(),
        download_to: "~/dl/%(title)s".to_string(),
        parameters: vec!["--no-playlist".to_string()],
        ffmpeg_path: Some("/opt/homebrew/bin/ffmpeg".to_string()),
        proxy: Some("socks5://h:1".to_string()),
    };
    let args = build_download_args_with(&req, Some("/Users/me".to_string()));
    assert_eq!(
        args,
        [
            "--no-playlist",
            "--newline",
            "--no-color",
            "--progress-template",
            PROGRESS_TEMPLATE,
            "--no-quiet",
            "--print",
            "after_move:[final-path] %(filepath)s",
            "--print",
            "after_move:[final-extractor] %(extractor)s",
            "--ffmpeg-location",
            "/opt/homebrew/bin/ffmpeg",
            "--proxy",
            "socks5://h:1",
            "-o",
            "/Users/me/dl/%(title)s",
            "https://example.com/v"
        ]
    );
    let bare = DownloadRequest {
        url: "u".to_string(),
        download_to: "out".to_string(),
        parameters: vec![],
        ffmpeg_path: None,
        proxy: Some(" \t".to_string()),
    };
    let args = build_download_args_with(&bare, None);
    assert_eq!(
        args,
        [
            "--newline",
            "--no-color",
            "--progress-template",
            PROGRESS_TEMPLATE,
            "--no-quiet",
            "--print",
            PRINT_PATH_TEMPLATE,
            "--print",
            PRINT_EXTRACTOR_TEMPLATE,
            "-o",
            "out",
            "u"
        ]
    );
}
