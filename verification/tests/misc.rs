use ytdlp_ty::binaries::{
    first_existing, override_for, search_order_with, short_version, update_outcome,
    version_flag, version_from_output,
};
use ytdlp_ty::config::{slot_free, AppConfig};
use ytdlp_ty::history::history_page;
use ytdlp_ty::schema::{has_column_named, migration_plan, SCHEMA_VERSION};
use ytdlp_ty::templates::{
    apply_stored_seq, ensure_template_id, seed_templates, seq_from_row, template_from_row,
    templates_after_import, templates_after_stored, DEFAULT_DOWNLOAD_TO,
};
use ytdlp_ty::text::{str_lines, str_trim};

#[test]
fn version_flags_and_banners() {
    assert_eq!(version_flag("ffmpeg"), "-version");
    assert_eq!(version_flag("yt-dlp"), "--version");
    assert_eq!(short_version("ffmpeg version 8.1 Copyright (c) 2000-2026"), "8.1");
    assert_eq!(short_version("2026.07.04"), "2026.07.04");
    assert_eq!(short_version("ffmpeg version   "), "ffmpeg version   ");
    assert_eq!(version_from_output("", "ffmpeg version 7.0 x\nmore"), "7.0");
    assert_eq!(version_from_output("  2026.07.04 \r\n", "ignored"), "2026.07.04");
    assert_eq!(update_outcome(true, " ok \n"), Ok("ok".to_string()));
    assert_eq!(update_outcome(false, "bad\n"), Err("bad".to_string()));
}

#[test]
fn binaries_are_searched_in_order() {
    let order = search_order_with("yt-dlp", Some("/custom/yt-dlp"), Some("/home/me".to_string()));
    assert_eq!(
        order,
        [
            "/custom/yt-dlp",
            "/opt/homebrew/bin/yt-dlp",
            "/usr/local/bin/yt-dlp",
            "/home/me/.local/bin/yt-dlp",
            "/usr/bin/yt-dlp"
        ]
    );
    let order = search_order_with("ffmpeg", None, None);
    assert_eq!(order.len(), 3);
    assert_eq!(first_existing(&order, &vec![false, true, true], "ffmpeg"), "/usr/local/bin/ffmpeg");
    assert_eq!(first_existing(&order, &vec![false, false, false], "ffmpeg"), "ffmpeg");
    let config = AppConfig {
        ytdlp_path: Some("/a".to_string()),
        ffmpeg_path: None,
        proxy: String::new(),
        concurrency: 3,
    };
    assert_eq!(override_for("yt-dlp", &config), Some("/a".to_string()));
    assert_eq!(override_for("ffmpeg", &config), None);
    assert_eq!(override_for("other", &config), None);
}

#[test]
fn templates_keep_the_stored_counter() {
    let seeds = seed_templates().expect("the random source works here");
    assert!(seeds.iter().all(|t| t.created_at.ends_with("+00:00") && t.created_at.len() >= 25));
    let names: Vec<&str> = seeds.iter().map(|t| t.name.as_str()).collect();
    assert_eq!(names, ["YouTube", "Bilibili", "TikTok"]);
    assert!(seeds.iter().all(|t| t.next_seq == 1 && t.download_to == DEFAULT_DOWNLOAD_TO));
    assert_ne!(seeds[0].id, seeds[1].id);
    let t = template_from_row(
        String::new(),
        "YT".into(),
        String::new(),
        "~/x".into(),
        "-v".into(),
        "raw".into(),
        11,
        "2024".into(),
        -1,
    );
    let t = ensure_template_id(t).expect("the random source works here");
    assert_eq!(&t.id[14..15], "4");
    assert!(t.id.chars().all(|c| c == '-' || c.is_ascii_digit() || ('a'..='f').contains(&c)));
    assert_eq!(t.id.len(), 36);
    assert!([8, 13, 18, 23].iter().all(|&i| t.id.as_bytes()[i] == b'-'));
    let saved = apply_stored_seq(t, Some(42));
    assert_eq!(saved.next_seq, 42);
    assert_eq!(saved.order, -1);
    let kept = apply_stored_seq(saved, None);
    assert_eq!(kept.next_seq, 42);
    assert_eq!(seq_from_row(Some(7)), 7);
    assert_eq!(seq_from_row(None), 1);
}

#[test]
fn schema_steps_and_history_paging() {
    let fresh = migration_plan(0, false);
    assert!(fresh.create_tables && fresh.add_command_column && fresh.set_version);
    let current = migration_plan(SCHEMA_VERSION, true);
    assert!(!current.create_tables && !current.add_command_column && !current.set_version);
    let names = vec!["id".to_string(), "command".to_string()];
    assert!(has_column_named(&names, "command"));
    assert!(!has_column_named(&names, "comm"));
    assert_eq!(history_page(None, None), (500, 0));
    assert_eq!(history_page(Some(10), Some(20)), (10, 20));
}

#[test]
fn text_helpers_match_the_standard_library() {
    for s in ["", "a", "a\n", "a\r\nb", "\n\nx\r", "x\ry\n"] {
        let mine = str_lines(s);
        let std: Vec<&str> = s.lines().collect();
        assert_eq!(mine, std, "input {s:?}");
    }
    for s in ["", "  a b \t", "\u{3000}x\u{85}", "\u{200b}y"] {
        assert_eq!(str_trim(s), s.trim());
    }
}

#[test]
fn stored_templates_win_over_legacy_and_seeds() {
    let row = |name: &str| {
        template_from_row(
            "id".into(),
            name.into(),
            String::new(),
            "~/x".into(),
            String::new(),
            "raw".into(),
            1,
            "t".into(),
            0,
        )
    };
    let stored = templates_after_stored(vec![row("Mine")]).expect("stored rows are the list");
    assert_eq!(stored[0].name, "Mine");
    assert!(templates_after_stored(Vec::new()).is_none());
    let imported = templates_after_import(Some(vec![row("Old")])).expect("legacy rows are the list");
    assert_eq!(imported[0].name, "Old");
    assert!(templates_after_import(Some(Vec::new())).is_none());
    assert!(templates_after_import(None).is_none());
}

#[test]
fn a_slot_is_free_below_the_cap() {
    assert!(slot_free(2, 3));
    assert!(!slot_free(3, 3));
    assert!(slot_free(0, 0));
    assert!(!slot_free(1, 0));
    assert!(seed_templates().unwrap().iter().all(|t| t.id.len() == 36 && t.id.as_bytes()[8] == b'-'));
}

#[test]
fn the_clock_gives_dated_texts() {
    let today = ytdlp_ty::clock::today_text();
    assert_eq!(today.len(), 10);
    assert_eq!(&today[4..5], "-");
    assert!(today.as_str() > "2020-01-01");
    let now = ytdlp_ty::clock::now_rfc3339();
    assert!(now.ends_with("+00:00"));
    assert_eq!(&now[10..11], "T");
    assert!(now.starts_with(&today[..4]));
}
