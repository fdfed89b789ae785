use std::collections::VecDeque;

use ytdlp_ty::args::ChosenFormat;
use ytdlp_ty::jobs::{
    chosen_formats_for, classify_line, file_name_of, host_of, new_job_id, outcome_status, plan_job_parameters, platform_of, push_tail_line,
    tail_text, JobOutcome, ProgressStep, ReaderState, StdoutLine, JOB_STDERR_TAIL_LINES,
};

fn strs(v: &[&str]) -> Vec<String> {
    v.iter().map(|s| s.to_string()).collect()
}

#[test]
fn hosts_drop_scheme_path_and_www() {
    assert_eq!(host_of("https://www.pornhub.com/view?x=1").as_deref(), Some("pornhub.com"));
    assert_eq!(host_of("youtube.com/watch").as_deref(), Some("youtube.com"));
    assert_eq!(host_of("https://www.www.a.b/"), Some("a.b".to_string()));
    assert_eq!(host_of("https:///x"), None);
    assert_eq!(host_of("a://b://c").as_deref(), Some("b"));
    assert_eq!(platform_of(Some("Youtube".to_string()), "https://x.y/"), Some("Youtube".to_string()));
    assert_eq!(platform_of(None, "https://x.y/"), Some("x.y".to_string()));
}

#[test]
fn choose_format_needs_a_pick_for_every_url() {
    let urls = strs(&["u1", "u2"]);
    let chosen = vec![Some(ChosenFormat { format_id: "18".into(), video_only: false }), None];
    assert_eq!(
        plan_job_parameters("-f 22", "chooseFormat", &urls, &chosen).unwrap_err(),
        "No format chosen for u2"
    );
    let chosen = vec![
        Some(ChosenFormat { format_id: "18".into(), video_only: false }),
        Some(ChosenFormat { format_id: "399".into(), video_only: true }),
    ];
    let plan = plan_job_parameters("-f 22 -v", "chooseFormat", &urls, &chosen).unwrap();
    assert_eq!(plan, vec![strs(&["-v", "-f", "18"]), strs(&["-v", "-f", "399+bestaudio/399"])]);
}

#[test]
fn other_modes_ignore_picks_and_reject_bad_parameters() {
    let urls = strs(&["u1"]);
    let chosen = vec![Some(ChosenFormat { format_id: "18".into(), video_only: false })];
    let plan = plan_job_parameters("-f 22", "raw", &urls, &chosen).unwrap();
    assert_eq!(plan, vec![strs(&["-f", "22"])]);
    assert!(plan_job_parameters("\"open", "raw", &urls, &chosen).is_err());
    assert!(plan_job_parameters("\"open", "chooseFormat", &urls, &vec![None]).unwrap_err().starts_with("Parameters"));
}

#[test]
fn a_skipped_file_is_reported_as_skipped() {
    let mut st = ReaderState::new();
    assert!(matches!(
        classify_line(&mut st, "[download] /x/Clip.mp4 has already been downloaded"),
        StdoutLine::AlreadyDownloaded
    ));
    match st.on_progress("finished") {
        ProgressStep::Update { finished, show } => {
            assert!(finished);
            assert!(!show);
        }
        ProgressStep::ReportError => panic!("not an error line"),
    }
    assert!(matches!(st.outcome(true), JobOutcome::Skipped));
    assert_eq!(outcome_status(&st.outcome(true)), "skipped");
    assert_eq!(outcome_status(&st.outcome(false)), "error");
}

#[test]
fn a_real_transfer_is_completed_and_shown() {
    let mut st = ReaderState::new();
    assert!(matches!(classify_line(&mut st, "dl:a|downloading|1|2|NA|NA|NA"), StdoutLine::Progress(_)));
    assert!(matches!(classify_line(&mut st, "[Merger] Merging formats"), StdoutLine::Merge));
    assert!(matches!(classify_line(&mut st, "[youtube] x"), StdoutLine::Other));
    assert!(matches!(st.on_progress("downloading"), ProgressStep::Update { finished: false, show: true }));
    assert!(matches!(st.on_progress("error"), ProgressStep::ReportError));
    assert_eq!(outcome_status(&st.outcome(true)), "completed");
}

#[test]
fn stderr_tail_keeps_the_last_lines() {
    let mut buf = VecDeque::new();
    assert_eq!(tail_text(&buf), None);
    for i in 0..45 {
        push_tail_line(&mut buf, format!("e{i}"));
    }
    assert_eq!(buf.len(), JOB_STDERR_TAIL_LINES);
    assert_eq!(buf.front().map(String::as_str), Some("e5"));
    let text = tail_text(&buf).unwrap();
    assert!(text.starts_with("e5\ne6"));
    assert!(text.ends_with("e44"));
    let mut one = VecDeque::new();
    push_tail_line(&mut one, String::new());
    assert_eq!(tail_text(&one), None);
}

#[test]
fn printed_path_and_extractor_are_read_back_trimmed() {
    let mut st = ReaderState::new();
    match classify_line(&mut st, "[final-path]  /dl/Clip [x].mp4 \r") {
        StdoutLine::FinalPath(p) => assert_eq!(p, "/dl/Clip [x].mp4"),
        _ => panic!("expected the final path"),
    }
    match classify_line(&mut st, "[final-extractor] youtube") {
        StdoutLine::Extractor(e) => assert_eq!(e, "youtube"),
        _ => panic!("expected the extractor"),
    }
    // A printed path that mentions the skip phrase is still a path.
    assert!(matches!(
        classify_line(&mut st, "[final-path] has already been downloaded.mp4"),
        StdoutLine::FinalPath(_)
    ));
    assert!(!st.already_downloaded);
}

#[test]
fn job_ids_are_fresh_uuids() {
    let a = new_job_id().expect("the random source works here");
    let b = new_job_id().expect("the random source works here");
    assert!("89ab".contains(&a[19..20]));
    assert_eq!(a.len(), 36);
    assert!([8, 13, 18, 23].iter().all(|&i| a.as_bytes()[i] == b'-'));
    assert_ne!(a, b);
}

#[test]
fn file_names_follow_the_last_named_component() {
    assert_eq!(file_name_of("/dl/Clip [x].mp4").as_deref(), Some("Clip [x].mp4"));
    assert_eq!(file_name_of("/dl/sub/").as_deref(), Some("sub"));
    assert_eq!(file_name_of("a/./."), Some("a".to_string()));
    assert_eq!(file_name_of("/dl/.."), None);
    assert_eq!(file_name_of("/"), None);
    assert_eq!(file_name_of(""), None);
    for p in ["/a/b.txt", "rel/x", "/x/y/", "./", "..", "a//b", "/a/b/../c"] {
        let std_name = std::path::Path::new(p).file_name().map(|f| f.to_string_lossy().to_string());
        assert_eq!(file_name_of(p), std_name, "path {p:?}");
    }
}

#[test]
fn progress_lines_carry_their_fields() {
    let mut st = ReaderState::new();
    match classify_line(&mut st, "dl:abc|downloading|1024|4096|NA|512.5|None") {
        StdoutLine::Progress(p) => {
            assert_eq!(p.status, "downloading");
            assert_eq!(p.downloaded_bytes.as_deref(), Some("1024"));
            assert_eq!(p.total_bytes.as_deref(), Some("4096"));
            assert_eq!(p.total_bytes_estimate, None);
            assert_eq!(p.speed_bps.as_deref(), Some("512.5"));
            assert_eq!(p.eta_seconds, None);
        }
        _ => panic!("expected a progress line"),
    }
}

#[test]
fn picked_formats_line_up_with_the_urls() {
    let mut m = std::collections::HashMap::new();
    m.insert("u2".to_string(), ChosenFormat { format_id: "137".to_string(), video_only: true });
    let urls = strs(&["u1", "u2", "u3"]);
    let chosen = chosen_formats_for(&urls, &m);
    assert_eq!(chosen.len(), 3);
    assert!(chosen[0].is_none());
    let c = chosen[1].as_ref().expect("u2 was picked");
    assert_eq!(c.format_id, "137");
    assert!(c.video_only);
    assert!(chosen[2].is_none());
}

#[test]
fn ordinary_lines_change_nothing() {
    let mut st = ReaderState::new();
    assert!(matches!(classify_line(&mut st, "[youtube] abc: Downloading webpage"), StdoutLine::Other));
    assert!(matches!(classify_line(&mut st, ""), StdoutLine::Other));
    assert!(!st.already_downloaded && !st.saw_transfer);
}
