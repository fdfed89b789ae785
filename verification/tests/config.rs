use ytdlp_ty::config::{
    config_from_stored, config_to_stored, parse_u32, probe_chunk_size, slot_cap, AppConfig,
};

#[test]
fn defaults_match_a_fresh_install() {
    let c = AppConfig::default();
    assert_eq!(c.ytdlp_path, None);
    assert_eq!(c.ffmpeg_path, None);
    assert_eq!(c.proxy, "");
    assert_eq!(c.concurrency, 3);
}

#[test]
fn written_config_reads_back_unchanged() {
    let c = AppConfig {
        ytdlp_path: Some("/opt/homebrew/bin/yt-dlp".to_string()),
        ffmpeg_path: None,
        proxy: "http://127.0.0.1:7890".to_string(),
        concurrency: 4294967295,
    };
    let s = config_to_stored(&c);
    assert_eq!(s.ffmpeg_path, "");
    assert_eq!(s.concurrency, "4294967295");
    let back = config_from_stored(
        Some(s.ytdlp_path),
        Some(s.ffmpeg_path),
        Some(s.proxy),
        Some(s.concurrency),
    );
    assert_eq!(back.ytdlp_path, c.ytdlp_path);
    assert_eq!(back.ffmpeg_path, None);
    assert_eq!(back.proxy, c.proxy);
    assert_eq!(back.concurrency, c.concurrency);
}

#[test]
fn missing_or_bad_values_fall_back_to_defaults() {
    let c = config_from_stored(Some(String::new()), None, None, Some("lots".to_string()));
    assert_eq!(c.ytdlp_path, None);
    assert_eq!(c.ffmpeg_path, None);
    assert_eq!(c.proxy, "");
    assert_eq!(c.concurrency, 3);
    let c = config_from_stored(None, None, None, Some("4294967296".to_string()));
    assert_eq!(c.concurrency, 3);
}

#[test]
fn numbers_parse_as_the_standard_library_does() {
    for s in ["0", "7", "+12", "007", "4294967295", "4294967296", "", "+", "-1", " 1", "1a", "99999999999999999999"] {
        assert_eq!(parse_u32(s), s.parse::<u32>().ok(), "input {s:?}");
    }
}

#[test]
fn concurrency_caps_are_clamped() {
    assert_eq!(slot_cap(0), 1);
    assert_eq!(slot_cap(5), 5);
    assert_eq!(probe_chunk_size(0), 1);
    assert_eq!(probe_chunk_size(3), 3);
    assert_eq!(probe_chunk_size(20), 8);
}
