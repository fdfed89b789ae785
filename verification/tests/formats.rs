use ytdlp_ty::formats::{
    is_json_doc_line, parse_format, probe_result, probe_stdout, probe_title, quote_command,
    stderr_message, FormatFields, ProbeEpoch,
};

fn fields(pairs: &[(&str, Option<&str>)]) -> FormatFields {
    let get = |k: &str| {
        pairs.iter().find(|(key, _)| *key == k).and_then(|(_, v)| v.map(|s| s.to_string()))
    };
    FormatFields {
        format_id: get("format_id"),
        ext: get("ext"),
        protocol: get("protocol"),
        resolution: get("resolution"),
        vcodec: get("vcodec"),
        acodec: get("acodec"),
    }
}

#[test]
fn keeps_formats_that_report_no_codec_metadata() {
    let entry = parse_format(&fields(&[
        ("format_id", Some("1080p")),
        ("ext", Some("mp4")),
        ("resolution", Some("1080p")),
        ("protocol", Some("https")),
        ("vcodec", None),
        ("acodec", None),
    ]))
    .expect("a real format with unreported codecs must stay selectable");
    assert_eq!(entry.format_id, "1080p");
    assert_eq!(entry.vcodec, "none");
}

#[test]
fn drops_storyboard_image_sheets() {
    assert!(parse_format(&fields(&[
        ("format_id", Some("sb0")),
        ("ext", Some("mhtml")),
        ("resolution", Some("48x27")),
        ("protocol", Some("mhtml")),
        ("vcodec", Some("none")),
        ("acodec", Some("none")),
    ]))
    .is_none());
}

#[test]
fn keeps_ordinary_adaptive_streams() {
    let entry = parse_format(&fields(&[
        ("format_id", Some("hls-9562")),
        ("ext", Some("mp4")),
        ("resolution", Some("3840x2160")),
        ("protocol", Some("m3u8_native")),
        ("vcodec", Some("avc1.640034")),
        ("acodec", Some("mp4a.40.2")),
    ]))
    .expect("adaptive stream must be selectable");
    assert_eq!(entry.acodec, "mp4a.40.2");
}

#[test]
fn missing_fields_take_their_fallbacks() {
    assert!(parse_format(&fields(&[("ext", Some("mp4"))])).is_none());
    let e = parse_format(&fields(&[("format_id", Some("x"))])).unwrap();
    assert_eq!((e.ext.as_str(), e.proto.as_str()), ("?", "?"));
    assert_eq!((e.vcodec.as_str(), e.acodec.as_str()), ("none", "none"));
    assert_eq!(e.resolution, None);
    assert!(parse_format(&fields(&[("format_id", Some("x")), ("protocol", Some("mhtml"))])).is_none());
}

#[test]
fn failed_probe_reports_the_last_non_blank_lines() {
    assert_eq!(stderr_message(""), "yt-dlp exited with an error");
    assert_eq!(stderr_message("  \n\n"), "yt-dlp exited with an error");
    assert_eq!(stderr_message("WARNING: a\n\nERROR: b\r\n"), "WARNING: a\nERROR: b");
    let many: String = (0..30).map(|i| format!("line {i}\n")).collect();
    let msg = stderr_message(&many);
    assert!(msg.starts_with("line 5\n"));
    assert!(msg.ends_with("line 29"));
    assert_eq!(msg.lines().count(), 25);
}

#[test]
fn playlist_titles_count_the_extra_entries() {
    assert_eq!(probe_title("Clip", 1), "Clip");
    assert_eq!(probe_title("Mix", 4), "Mix (+3 more in playlist)");
    assert!(is_json_doc_line("  {\"id\": 1}"));
    assert!(!is_json_doc_line("[info] x"));
}

#[test]
fn quoted_command_round_trips_through_the_shell_splitter() {
    let args: Vec<String> = ["-f", "a b", "it's", "", "#x"].iter().map(|s| s.to_string()).collect();
    let cmd = quote_command("/usr/local/bin/yt-dlp", &args);
    let back = shell_words::split(&cmd).unwrap();
    let mut expected = vec!["/usr/local/bin/yt-dlp".to_string()];
    expected.extend(args);
    assert_eq!(back, expected);
}

#[test]
fn probe_without_documents_or_rows_is_an_error() {
    assert_eq!(
        probe_result("https://x.test/v", 0, None, 3),
        Err("yt-dlp returned no video metadata".to_string())
    );
    assert_eq!(
        probe_result("https://x.test/v", 1, Some("Clip".to_string()), 0),
        Err("no downloadable formats found".to_string())
    );
}

#[test]
fn probe_title_falls_back_to_the_url_and_counts_playlist_entries() {
    assert_eq!(probe_result("https://x.test/v", 1, None, 2), Ok("https://x.test/v".to_string()));
    assert_eq!(
        probe_result("https://x.test/v", 3, Some("Clip".to_string()), 2),
        Ok("Clip (+2 more in playlist)".to_string())
    );
}

#[test]
fn probe_stdout_reads_the_first_document_and_counts_the_rest() {
    let stdout = [
        "[youtube] abc: Downloading webpage\n",
        "  {\"title\":\"Clip\",\"id\":\"abc\",\"formats\":[",
        "{\"format_id\":\"sb0\",\"ext\":\"mhtml\",\"protocol\":\"mhtml\"},",
        "{\"format_id\":\"18\",\"ext\":\"mp4\",\"protocol\":\"https\",\"vcodec\":\"avc1\",",
        "\"acodec\":\"mp4a\",\"resolution\":\"640x360\",\"fps\":30},",
        "{\"format_id\":\"22\",\"vcodec\":null}]}\n",
        "{not json\n",
        "{\"title\":\"Second\"}\n",
    ]
    .concat();
    let (title, id, rows, line) = probe_stdout("https://x.test/v", &stdout).expect("a document");
    assert_eq!(title, "Clip (+1 more in playlist)");
    assert_eq!(id, "abc");
    assert_eq!(rows.len(), 2);
    assert_eq!(rows[0].0, 1);
    assert_eq!(rows[0].1.format_id, "18");
    assert_eq!(rows[0].1.ext, "mp4");
    assert_eq!(rows[0].1.resolution.as_deref(), Some("640x360"));
    assert_eq!(rows[0].1.proto, "https");
    assert_eq!(rows[0].1.vcodec, "avc1");
    assert_eq!(rows[0].1.acodec, "mp4a");
    assert_eq!(rows[1].0, 2);
    assert_eq!(rows[1].1.ext, "?");
    assert_eq!(rows[1].1.vcodec, "none");
    assert_eq!(line, 1);
}

#[test]
fn probe_stdout_without_documents_or_formats_is_an_error() {
    assert_eq!(
        probe_stdout("u", "[info] nothing\n{broken\n").err(),
        Some("yt-dlp returned no video metadata".to_string())
    );
    assert_eq!(
        probe_stdout("u", "{\"title\":\"T\",\"formats\":[{\"ext\":\"mp4\"}]}").err(),
        Some("no downloadable formats found".to_string())
    );
    let (title, id, rows, _) = probe_stdout("https://x/v", "{\"formats\":[{\"format_id\":\"1\"}]}").unwrap();
    assert_eq!(title, "https://x/v");
    assert_eq!(id, "");
    assert_eq!(rows.len(), 1);
}

#[test]
fn cancelling_moves_the_probe_epoch_on() {
    let mut epoch = ProbeEpoch::new();
    let mine = epoch.current();
    assert!(epoch.still_owned_by(mine));
    epoch.cancel();
    assert!(!epoch.still_owned_by(mine));
    let mut top = ProbeEpoch(u64::MAX);
    top.cancel();
    assert_eq!(top.current(), 0);
}

#[test]
fn quoted_command_quotes_only_what_the_shell_would_read_specially() {
    let args: Vec<String> = ["-o", "a b", "it's", "", "x%y", "plain-1.0"].iter().map(|s| s.to_string()).collect();
    assert_eq!(quote_command("yt-dlp", &args), "yt-dlp -o 'a b' 'it'\\''s' '' 'x%y' plain-1.0");
}
