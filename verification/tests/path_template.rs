use ytdlp_ty::path_template::{
    finish_output_path, finish_output_path_with, needs_seq, output_prefix, replace_seq_token, resolve_date, resolve_prefix,
};

#[test]
fn pads_to_token_width() {
    assert_eq!(replace_seq_token("{id:NNN}", 7), "007");
    assert_eq!(replace_seq_token("{id:NN}", 7), "07");
    assert_eq!(replace_seq_token("prefix-{id:NNNN}-suffix", 42), "prefix-0042-suffix");
}

#[test]
fn leaves_string_untouched_without_token() {
    assert_eq!(replace_seq_token("no token here", 7), "no token here");
}

#[test]
fn wide_numbers_are_never_truncated() {
    assert_eq!(replace_seq_token("{id:N}", 12345), "12345");
    assert_eq!(replace_seq_token("{id:NNN}", 0), "000");
}

#[test]
fn malformed_tokens_are_left_alone() {
    assert_eq!(replace_seq_token("{id:NxN}", 3), "{id:NxN}");
    assert_eq!(replace_seq_token("{id:NNN", 3), "{id:NNN");
    assert_eq!(replace_seq_token("a{id:N}b{id:NN}", 5), "a5b{id:NN}");
}

#[test]
fn a_malformed_opening_does_not_hide_a_later_token() {
    assert_eq!(replace_seq_token("{id:NX}_{id:NN}", 7), "{id:NX}_07");
    assert_eq!(replace_seq_token("{id:N {id:NNN}", 4), "{id:N 004");
}

#[test]
fn prefix_stops_at_original_filename() {
    assert_eq!(output_prefix("~/d/{id:NNN}_{original_filename}_x"), "~/d/{id:NNN}_");
    assert_eq!(output_prefix("plain"), "plain");
}

#[test]
fn date_token_takes_the_given_day() {
    assert_eq!(
        resolve_date("~/d/{date:YYYY-MM-DD}_{date:YYYY-MM-DD}_{original_filename}", "2024-05-06"),
        "~/d/2024-05-06_2024-05-06_"
    );
}

#[test]
fn full_resolution_of_the_default_template() {
    let raw = "~/Downloads/yt-dlp/{date:YYYY-MM-DD}_{id:NNN}_{id:guid}_{original_filename}";
    let resolved = resolve_date(raw, "2024-05-06");
    assert!(needs_seq(&resolved));
    let out = finish_output_path_with(
        raw,
        &resolved,
        Some(7),
        "0f0e0d0c-0b0a-4908-8706-050403020100",
        Some("/Users/me".to_string()),
    );
    assert_eq!(
        out,
        "/Users/me/Downloads/yt-dlp/2024-05-06_007_0f0e0d0c-0b0a-4908-8706-050403020100_%(title)s.%(ext)s"
    );
}

#[test]
fn percent_in_the_prefix_is_escaped() {
    let out = finish_output_path_with("/x/100%_{original_filename}", "/x/100%_", None, "", None);
    assert_eq!(out, "/x/100%%_%(title)s.%(ext)s");
    assert!(!needs_seq("/x/{id:guid}"));
}

#[test]
fn only_the_extension_is_appended_without_the_filename_token() {
    let out = finish_output_path_with("/x/clip", "/x/clip", None, "", None);
    assert_eq!(out, "/x/clip.%(ext)s");
}

#[test]
fn resolving_today_gives_a_date_shaped_prefix() {
    let out = resolve_prefix("{date:YYYY-MM-DD}");
    assert!(out.len() >= 10);
    assert!(out.chars().all(|c| c.is_ascii_digit() || c == '-' || c == '+'));
    assert_eq!(&out[out.len() - 6..out.len() - 5], "-");
}

#[test]
fn a_guid_token_is_filled_with_a_fresh_v4_uuid() {
    let out = finish_output_path("/x/{id:guid}", "/x/{id:guid}", None).expect("the random source works here");
    let id = &out["/x/".len().."/x/".len() + 36];
    assert_eq!(&id[14..15], "4");
    assert!(out.ends_with(".%(ext)s"));
}
