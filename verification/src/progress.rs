//! Interpretation of yt-dlp's stdout: the `dl:` progress lines written by
//! the `--progress-template`, its merge and already-downloaded log lines,
//! the up-front merge prediction, and the pass bookkeeping that keeps a
//! video+audio download's overall percent from resetting between passes.

use vstd::prelude::*;

use crate::args::{download_args, is_format_flag, mode_tokens, opt_text, law_best_modes_replace_the_selector};
use crate::text::{
    lemma_find, occurs_at, chars_of, contains, slice_chars, split_chars, split_on, starts_with, str_contains, str_eq,
    str_starts_with, texts,
};

verus! {

/// The raw fields of one `dl:` progress line. A field is absent where yt-dlp
/// wrote nothing, `None` or `NA`; the numeric ones are still text here.
pub struct ProgressParts {
    pub status: String,
    pub downloaded_bytes: Option<String>,
    pub total_bytes: Option<String>,
    pub total_bytes_estimate: Option<String>,
    pub speed_bps: Option<String>,
    pub eta_seconds: Option<String>,
}

/// A template field, or nothing where yt-dlp reported none.
pub open spec fn field(s: Seq<char>) -> Option<Seq<char>> {
    if s.len() == 0 || s == "None"@ || s == "NA"@ {
        None
    } else {
        Some(s)
    }
}

/// The pieces of a line after its `dl:` prefix.
pub open spec fn progress_pieces(line: Seq<char>) -> Seq<Seq<char>> {
    split_on(line.skip(3), '|')
}

/// `line` is a progress line: it starts with `dl:` and has at least seven
/// `|`-separated pieces.
pub open spec fn is_progress_line(line: Seq<char>) -> bool {
    starts_with(line, "dl:"@) && progress_pieces(line).len() >= 7
}

/// The fields of a progress line, in template order.
pub open spec fn parts_of(p: ProgressParts) -> (
    Seq<char>,
    Option<Seq<char>>,
    Option<Seq<char>>,
    Option<Seq<char>>,
    Option<Seq<char>>,
    Option<Seq<char>>,
) {
    (
        p.status@,
        opt_text(p.downloaded_bytes),
        opt_text(p.total_bytes),
        opt_text(p.total_bytes_estimate),
        opt_text(p.speed_bps),
        opt_text(p.eta_seconds),
    )
}

/// The fields a progress line holds, in template order: the status, then
/// the downloaded and total bytes, the total estimate, the speed and the eta.
pub open spec fn progress_parts_spec(line: Seq<char>) -> (
    Seq<char>,
    Option<Seq<char>>,
    Option<Seq<char>>,
    Option<Seq<char>>,
    Option<Seq<char>>,
    Option<Seq<char>>,
) {
    let ps = progress_pieces(line);
    (ps[1], field(ps[2]), field(ps[3]), field(ps[4]), field(ps[5]), field(ps[6]))
}

fn field_of(s: &String) -> (r: Option<String>)
    ensures
        opt_text(r) == field(s@),
{
    if s.as_str().unicode_len() == 0 || str_eq(s.as_str(), "None") || str_eq(s.as_str(), "NA") {
        None
    } else {
        Some(s.clone())
    }
}

/// Parses one stdout line. `None` for any line that is not a progress line
/// written by our `--progress-template`.
pub fn parse_progress_parts(line: &str) -> (r: Option<ProgressParts>)
    ensures
        match r {
            Some(p) => is_progress_line(line@) && parts_of(p) == progress_parts_spec(line@),
            None => !is_progress_line(line@),
        },
{
    if !str_starts_with(line, "dl:") {
        return None;
    }
    proof {
        reveal_strlit("dl:");
    }
    let v = chars_of(line);
    let rest = slice_chars(&v, 3, v.len());
    assert(rest@ =~= line@.skip(3));
    let parts = split_chars(&rest, '|');
    if parts.len() < 7 {
        return None;
    }
    let ghost ps = texts(parts@);
    assert(parts@[1]@ == ps[1]);
    Some(
        ProgressParts {
            status: parts[1].clone(),
            downloaded_bytes: field_of(&parts[2]),
            total_bytes: field_of(&parts[3]),
            total_bytes_estimate: field_of(&parts[4]),
            speed_bps: field_of(&parts[5]),
            eta_seconds: field_of(&parts[6]),
        },
    )
}

/// A merge/remux log line.
pub open spec fn is_merge_line_spec(line: Seq<char>) -> bool {
    contains(line, "[Merger]"@) || contains(line, "[ffmpeg]"@) || contains(line, "Merging formats"@)
}

/// True for yt-dlp log lines of the post-download merge/remux step, which
/// the progress template does not cover.
pub fn is_merge_line(line: &str) -> (r: bool)
    ensures
        r == is_merge_line_spec(line@),
{
    str_contains(line, "[Merger]") || str_contains(line, "[ffmpeg]") || str_contains(
        line,
        "Merging formats",
    )
}

/// True for the line yt-dlp prints instead of downloading when the target
/// file is already on disk. Matched on the phrase, since the path around it
/// is arbitrary.
pub fn is_already_downloaded_line(line: &str) -> (r: bool)
    ensures
        r == contains(line@, "has already been downloaded"@),
{
    str_contains(line, "has already been downloaded")
}

/// The value after the first `-f`/`--format` flag at or after `i` that has one.
pub open spec fn format_value_from(args: Seq<Seq<char>>, i: int) -> Option<Seq<char>>
    decreases args.len() - i,
{
    if i < 0 || i >= args.len() {
        None
    } else if is_format_flag(args[i]) && i + 1 < args.len() {
        Some(args[i + 1])
    } else {
        format_value_from(args, i + 1)
    }
}

/// A merge is expected when the explicit selector names two streams, or
/// when there is no explicit selector (yt-dlp's default merges).
pub open spec fn expects_merge_spec(args: Seq<Seq<char>>) -> bool {
    match format_value_from(args, 0) {
        Some(v) => contains(v, "+"@),
        None => true,
    }
}

/// Best-effort prediction of whether the arguments imply a video+audio merge.
pub fn expects_merge(args: &[String]) -> (r: bool)
    ensures
        r == expects_merge_spec(texts(args@)),
{
    let ghost ts = texts(args@);
    let mut i: usize = 0;
    while i < args.len()
        invariant
            ts == texts(args@),
            ts.len() == args@.len(),
            i <= args@.len(),
            format_value_from(ts, i as int) == format_value_from(ts, 0),
        decreases args@.len() - i,
    {
        assert(ts[i as int] == args@[i as int]@);
        if (str_eq(args[i].as_str(), "-f") || str_eq(args[i].as_str(), "--format")) && i + 1
            < args.len() {
            assert(ts[i + 1] == args@[i + 1]@);
            return str_contains(args[i + 1].as_str(), "+");
        }
        i = i + 1;
    }
    true
}

/// Law: a stdout line without `[Merger]`, `[ffmpeg]` or `Merging formats`
/// is never taken for a merge line (such as `[download] Destination: …`,
/// printed at the start of every download).
pub proof fn law_unmarked_lines_are_not_merges(line: Seq<char>)
    requires
        !contains(line, "[Merger]"@),
        !contains(line, "[ffmpeg]"@),
        !contains(line, "Merging formats"@),
    ensures
        !is_merge_line_spec(line),
{
}

/// Law: a line with any of the three merge markers is a merge line.
pub proof fn law_marked_lines_are_merges(line: Seq<char>)
    requires
        contains(line, "[Merger]"@) || contains(line, "[ffmpeg]"@) || contains(
            line,
            "Merging formats"@,
        ),
    ensures
        is_merge_line_spec(line),
{
}

/// Law: when the first `-f`/`--format` flag that has a value (at `i`) names
/// a single stream (no `+`), no merge is predicted, so a progressive
/// download runs over the whole scale.
pub proof fn law_single_stream_selector_predicts_no_merge(args: Seq<Seq<char>>, i: int)
    requires
        0 <= i && i + 1 < args.len(),
        args[i] == "-f"@ || args[i] == "--format"@,
        forall|j: int| 0 <= j < i ==> args[j] != "-f"@ && args[j] != "--format"@,
        !contains(args[i + 1], "+"@),
    ensures
        !expects_merge_spec(args),
{
    lemma_format_value_skips(args, 0, i);
}

/// Law: a two-stream selector (one with `+`) as the first `-f`/`--format`
/// value predicts a merge.
pub proof fn law_two_stream_selector_predicts_merge(args: Seq<Seq<char>>, i: int)
    requires
        0 <= i && i + 1 < args.len(),
        args[i] == "-f"@ || args[i] == "--format"@,
        forall|j: int| 0 <= j < i ==> args[j] != "-f"@ && args[j] != "--format"@,
        contains(args[i + 1], "+"@),
    ensures
        expects_merge_spec(args),
{
    lemma_format_value_skips(args, 0, i);
}

/// Law: with no `-f`/`--format` flag followed by a value, yt-dlp's default
/// selector merges, so a merge is predicted.
pub proof fn law_no_selector_predicts_merge(args: Seq<Seq<char>>)
    requires
        forall|j: int| 0 <= j < args.len() - 1 ==> args[j] != "-f"@ && args[j] != "--format"@,
    ensures
        expects_merge_spec(args),
{
    if args.len() > 0 {
        lemma_format_value_skips(args, 0, args.len() - 1);
        assert(format_value_from(args, args.len() as int) is None);
        assert(format_value_from(args, args.len() - 1) == format_value_from(args, args.len() as int));
    }
}

/// Which band of the overall 0-100 scale the current pass maps into. A
/// download expected to merge runs its first pass in 0-50, its second in
/// 50-95 and the merge in 95-100; any other download uses the whole scale.
pub struct PassState {
    pub expects_merge: bool,
    /// 0 = first pass, 1 = second pass, 2 and up = merging or done.
    pub pass_index: u8,
    pub in_finished_run: bool,
}

/// The band `(lo, hi)` a state maps progress into.
pub open spec fn band(expects_merge: bool, pass_index: int) -> (int, int) {
    if !expects_merge {
        (0, 100)
    } else if pass_index == 0 {
        (0, 50)
    } else if pass_index == 1 {
        (50, 95)
    } else {
        (95, 100)
    }
}

impl PassState {
    /// A tracker before the first progress line.
    pub fn new(expects_merge: bool) -> (s: Self)
        ensures
            s.expects_merge == expects_merge,
            s.pass_index == 0,
            !s.in_finished_run,
    {
        PassState { expects_merge, pass_index: 0, in_finished_run: false }
    }

    /// The band the next progress line is mapped into.
    pub fn bounds(&self) -> (b: (u8, u8))
        ensures
            (b.0 as int, b.1 as int) == band(self.expects_merge, self.pass_index as int),
    {
        if !self.expects_merge {
            return (0, 100);
        }
        if self.pass_index == 0 {
            (0, 50)
        } else if self.pass_index == 1 {
            (50, 95)
        } else {
            (95, 100)
        }
    }

    /// Records one progress line's status after its percent was mapped: the
    /// first `finished` line of a run closes the current pass, so only the
    /// next line sees the following band.
    pub fn advance(&mut self, status: &str)
        requires
            !(status@ == "finished"@ && !old(self).in_finished_run && old(self).pass_index
                == 255),
        ensures
            final(self).expects_merge == old(self).expects_merge,
            status@ == "finished"@ ==> final(self).in_finished_run && final(self).pass_index == if old(
                self,
            ).in_finished_run {
                old(self).pass_index as int
            } else {
                old(self).pass_index + 1
            },
            status@ != "finished"@ ==> !final(self).in_finished_run && final(self).pass_index
                == old(self).pass_index,
    {
        if str_eq(status, "finished") {
            if !self.in_finished_run {
                self.in_finished_run = true;
                self.pass_index = self.pass_index + 1;
            }
        } else {
            self.in_finished_run = false;
        }
    }

    /// A merge log line moves straight into the merge band.
    pub fn enter_merge(&mut self)
        ensures
            final(self).expects_merge == old(self).expects_merge,
            final(self).in_finished_run == old(self).in_finished_run,
            final(self).pass_index == if old(self).pass_index >= 2 {
                old(self).pass_index
            } else {
                2
            },
    {
        if self.pass_index < 2 {
            self.pass_index = 2;
        }
    }
}


/// Law: a later pass never maps into a lower band — neither end of the band
/// decreases as the pass index grows.
pub proof fn law_band_never_moves_back(expects_merge: bool, p: int, q: int)
    requires
        0 <= p <= q,
    ensures
        band(expects_merge, p).0 <= band(expects_merge, q).0,
        band(expects_merge, p).1 <= band(expects_merge, q).1,
{
}

/// Law: for a download expected to merge, the first pass's band ends where
/// the second's begins and the second's ends where the merge band begins, so
/// a later pass never re-covers ground an earlier one showed.
pub proof fn law_merge_bands_do_not_overlap(p: int, q: int)
    requires
        0 <= p < q,
        p < 2,
    ensures
        band(true, p).1 <= band(true, q).0,
{
}

/// Law: a download not expected to merge always uses the whole 0-100 scale.
pub proof fn law_single_pass_uses_whole_scale(p: int)
    ensures
        band(false, p) == (0int, 100int),
{
}

/// Law: every band lies within 0-100 and is not empty.
pub proof fn law_bands_within_scale(expects_merge: bool, p: int)
    requires
        0 <= p,
    ensures
        0 <= band(expects_merge, p).0 < band(expects_merge, p).1 <= 100,
{
}


/// No format flag with a value at positions `i..j` means the search for the
/// selector may start at `j`.
proof fn lemma_format_value_skips(args: Seq<Seq<char>>, i: int, j: int)
    requires
        0 <= i <= j <= args.len(),
        forall|k: int| i <= k < j ==> !is_format_flag(#[trigger] args[k]),
    ensures
        format_value_from(args, i) == format_value_from(args, j),
    decreases j - i,
{
    if i < j {
        assert(!is_format_flag(args[i]));
        lemma_format_value_skips(args, i + 1, j);
    }
}

/// Law: a "Best video" download is predicted to merge and a "Best audio"
/// one is not, whatever else its arguments hold.
pub proof fn law_best_modes_predict_merge(
    ts: Seq<Seq<char>>,
    ffmpeg_path: Option<Seq<char>>,
    proxy: Option<Seq<char>>,
    out: Seq<char>,
    url: Seq<char>,
)
    ensures
        expects_merge_spec(download_args(mode_tokens(ts, "bestVideo"@), ffmpeg_path, proxy, out, url)),
        !expects_merge_spec(download_args(mode_tokens(ts, "bestAudio"@), ffmpeg_path, proxy, out, url)),
{
    law_best_modes_replace_the_selector(ts);
    let v = mode_tokens(ts, "bestVideo"@);
    let va = download_args(v, ffmpeg_path, proxy, out, url);
    assert forall|k: int| 0 <= k < v.len() - 2 implies !is_format_flag(#[trigger] va[k]) by {
        assert(va[k] == v[k]);
    }
    lemma_format_value_skips(va, 0, v.len() - 2);
    assert(va[v.len() - 2] == v[v.len() - 2]);
    assert(va[v.len() - 1] == v[v.len() - 1]);
    assert(is_format_flag(va[v.len() - 2]));
    assert(format_value_from(va, 0) == Some("bestvideo+bestaudio/best"@));
    reveal_strlit("bestvideo+bestaudio/best");
    reveal_strlit("+");
    assert(occurs_at("bestvideo+bestaudio/best"@, "+"@, 9)) by {
        assert("bestvideo+bestaudio/best"@.subrange(9, 10) =~= "+"@);
    }
    lemma_find("bestvideo+bestaudio/best"@, "+"@);

    let a = mode_tokens(ts, "bestAudio"@);
    let aa = download_args(a, ffmpeg_path, proxy, out, url);
    assert forall|k: int| 0 <= k < a.len() - 3 implies !is_format_flag(#[trigger] aa[k]) by {
        assert(aa[k] == a[k]);
    }
    lemma_format_value_skips(aa, 0, a.len() - 3);
    assert(aa[a.len() - 3] == a[a.len() - 3]);
    assert(aa[a.len() - 2] == a[a.len() - 2]);
    assert(is_format_flag(aa[a.len() - 3]));
    assert(format_value_from(aa, 0) == Some("bestaudio/best"@));
    reveal_strlit("bestaudio/best");
    lemma_find("bestaudio/best"@, "+"@);
    assert forall|j: int| !occurs_at("bestaudio/best"@, "+"@, j) by {
        if occurs_at("bestaudio/best"@, "+"@, j) {
            assert("bestaudio/best"@.subrange(j, j + 1)[0] == "+"@[0]);
            assert("bestaudio/best"@[j] == '+');
        }
    }
}

} // verus!
