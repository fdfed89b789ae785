//! The decisions around running downloads: planning a batch, reading a
//! job's stdout line by line, its final outcome, the stderr tail kept for
//! error reports, and the platform recorded in history.

use vstd::prelude::*;

use std::collections::HashMap;
use std::collections::VecDeque;

use crate::args::{
    apply_chosen_format, apply_mode, apply_mode_spec, chosen_args, opt_text, push_text, ChosenFormat,
    PRINT_EXTRACTOR_PREFIX, PRINT_PATH_PREFIX,
};
use crate::formats::last_n;
use crate::ids::{is_v4_uuid_text, new_uuid};
use crate::progress::{is_progress_line, parse_progress_parts, parts_of, progress_parts_spec, ProgressParts, is_merge_line, is_merge_line_spec, is_already_downloaded_line};
use crate::text::{
    chars_of, contains, find, find_chars, join, join_strings, lemma_find, occurs_at, slice_chars,
    split_chars, split_on, split_once, starts_with, str_eq, str_starts_with, str_trim, string_from, texts, trim,
};

verus! {

/// A batch of downloads started from the main page.
pub struct MultiDownloadRequest {
    pub urls: Vec<String>,
    /// The raw output template, resolved per URL.
    pub download_to: String,
    pub parameters: String,
    /// "raw" | "bestVideo" | "bestAudio" | "chooseFormat".
    pub mode: String,
    pub template_id: String,
    /// In "chooseFormat" mode, the format picked for each URL.
    pub chosen_formats: HashMap<String, ChosenFormat>,
}

/// The index of the first URL without a picked format.
pub open spec fn first_unchosen(chosen: Seq<Option<ChosenFormat>>, i: int) -> Option<int>
    decreases chosen.len() - i,
{
    if i < 0 || i >= chosen.len() {
        None
    } else if chosen[i] is None {
        Some(i)
    } else {
        first_unchosen(chosen, i + 1)
    }
}

/// The parameters one URL's job runs with: in "chooseFormat" mode its
/// picked format replaces any selector; otherwise the batch's tokens.
pub open spec fn job_parameters_spec(
    effective: Seq<Seq<char>>,
    choose: bool,
    chosen: Option<ChosenFormat>,
) -> Seq<Seq<char>> {
    match chosen {
        Some(c) => if choose {
            chosen_args(effective, c.format_id@, c.video_only)
        } else {
            effective
        },
        None => effective,
    }
}

/// What planning a batch gives: the Parameters error, the first URL without
/// a picked format in "chooseFormat" mode, or each URL's parameters.
pub open spec fn plan_spec(
    parameters: Seq<char>,
    mode: Seq<char>,
    urls: Seq<Seq<char>>,
    chosen: Seq<Option<ChosenFormat>>,
) -> Result<Seq<Seq<Seq<char>>>, Seq<char>> {
    match apply_mode_spec(parameters, mode) {
        Err(e) => Err(e),
        Ok(eff) => if mode == "chooseFormat"@ && first_unchosen(chosen, 0) is Some {
            Err("No format chosen for "@ + urls[first_unchosen(chosen, 0)->0])
        } else {
            Ok(
                Seq::new(
                    urls.len(),
                    |i: int| job_parameters_spec(eff, mode == "chooseFormat"@, chosen[i]),
                ),
            )
        },
    }
}

/// The character view of a list of token lists.
pub open spec fn plan_view(v: Seq<Vec<String>>) -> Seq<Seq<Seq<char>>> {
    v.map_values(|p: Vec<String>| texts(p@))
}

/// A copy of a token list.
pub fn copy_tokens(v: &Vec<String>) -> (out: Vec<String>)
    ensures
        texts(out@) == texts(v@),
{
    let mut out: Vec<String> = Vec::new();
    let mut i: usize = 0;
    while i < v.len()
        invariant
            i <= v@.len(),
            texts(out@) == texts(v@).take(i as int),
        decreases v@.len() - i,
    {
        push_text(&mut out, v[i].clone());
        i = i + 1;
        assert(texts(out@) =~= texts(v@).take(i as int));
    }
    assert(texts(v@).take(v@.len() as int) =~= texts(v@));
    out
}

proof fn lemma_first_unchosen(chosen: Seq<Option<ChosenFormat>>, i: int)
    requires
        0 <= i,
    ensures
        first_unchosen(chosen, i) matches Some(k) ==> i <= k < chosen.len() && chosen[k] is None,
    decreases chosen.len() - i,
{
    if i < chosen.len() && chosen[i] is Some {
        lemma_first_unchosen(chosen, i + 1);
    }
}

fn find_unchosen(chosen: &Vec<Option<ChosenFormat>>) -> (r: Option<usize>)
    ensures
        match r {
            Some(i) => first_unchosen(chosen@, 0) == Some(i as int),
            None => first_unchosen(chosen@, 0) is None,
        },
{
    let mut i: usize = 0;
    while i < chosen.len()
        invariant
            i <= chosen@.len(),
            first_unchosen(chosen@, i as int) == first_unchosen(chosen@, 0),
        decreases chosen@.len() - i,
    {
        if chosen[i].is_none() {
            return Some(i);
        }
        i = i + 1;
    }
    None
}

/// Plans a batch before anything is queued: the Parameters text is applied
/// with the mode (malformed text is an error), "chooseFormat" refuses a URL
/// without a picked format, and each URL gets its parameters.
/// `chosen[i]` is the format picked for `urls[i]`.
pub fn plan_job_parameters(
    parameters: &str,
    mode: &str,
    urls: &Vec<String>,
    chosen: &Vec<Option<ChosenFormat>>,
) -> (r: Result<Vec<Vec<String>>, String>)
    requires
        urls@.len() == chosen@.len(),
    ensures
        match r {
            Ok(v) => plan_spec(parameters@, mode@, texts(urls@), chosen@) == Ok::<
                Seq<Seq<Seq<char>>>,
                Seq<char>,
            >(plan_view(v@)),
            Err(e) => plan_spec(parameters@, mode@, texts(urls@), chosen@) == Err::<
                Seq<Seq<Seq<char>>>,
                Seq<char>,
            >(e@),
        },
{
    let effective = match apply_mode(parameters, mode) {
        Ok(t) => t,
        Err(e) => return Err(e),
    };
    let choose = str_eq(mode, "chooseFormat");
    if choose {
        match find_unchosen(chosen) {
            Some(i) => {
                proof {
                    lemma_first_unchosen(chosen@, 0);
                }
                let mut msg = String::from_str("No format chosen for ");
                msg.append(urls[i].as_str());
                assert(texts(urls@)[i as int] == urls@[i as int]@);
                return Err(msg);
            },
            None => {},
        }
    }
    let ghost eff = texts(effective@);
    let ghost want = Seq::new(
        urls@.len(),
        |i: int| job_parameters_spec(eff, mode@ == "chooseFormat"@, chosen@[i]),
    );
    let mut out: Vec<Vec<String>> = Vec::new();
    let mut i: usize = 0;
    while i < urls.len()
        invariant
            urls@.len() == chosen@.len(),
            eff == texts(effective@),
            choose == (mode@ == "chooseFormat"@),
            want == Seq::new(
                urls@.len(),
                |i: int| job_parameters_spec(eff, mode@ == "chooseFormat"@, chosen@[i]),
            ),
            i <= urls@.len(),
            plan_view(out@) == want.take(i as int),
        decreases urls@.len() - i,
    {
        let p = match &chosen[i] {
            Some(c) => if choose {
                apply_chosen_format(effective.as_slice(), c)
            } else {
                copy_tokens(&effective)
            },
            None => copy_tokens(&effective),
        };
        assert(texts(p@) == want[i as int]);
        let ghost before = out@;
        out.push(p);
        assert(plan_view(out@) =~= want.take(i + 1)) by {
            assert(plan_view(out@) =~= plan_view(before).push(texts(p@)));
        }
        i = i + 1;
    }
    assert(want.take(urls@.len() as int) =~= want);
    Ok(out)
}

/// The format picked for one URL: the map's entry for it, if any.
pub open spec fn chosen_for(m: Map<String, ChosenFormat>, url: String) -> Option<ChosenFormat> {
    if m.contains_key(url) {
        Some(m[url])
    } else {
        None
    }
}

/// The format picked for each URL, looked up in the request's map, lined up
/// with the URLs for `plan_job_parameters`. vstd specifies `HashMap::get`
/// only for key types that obey its key model, which it does not assert of
/// `String`; the lookup is stated under that premise.
pub fn chosen_formats_for(urls: &Vec<String>, m: &HashMap<String, ChosenFormat>) -> (r: Vec<
    Option<ChosenFormat>,
>)
    ensures
        r@.len() == urls@.len(),
        vstd::std_specs::hash::obeys_key_model::<String>() ==> forall|i: int|
            0 <= i < urls@.len() ==> #[trigger] r@[i] == chosen_for(m@, urls@[i]),
{
    broadcast use vstd::std_specs::hash::group_hash_axioms;

    let mut r: Vec<Option<ChosenFormat>> = Vec::new();
    let mut i: usize = 0;
    while i < urls.len()
        invariant
            i <= urls@.len(),
            r@.len() == i,
            vstd::std_specs::hash::obeys_key_model::<String>() ==> forall|k: int|
                0 <= k < i ==> #[trigger] r@[k] == chosen_for(m@, urls@[k]),
        decreases urls@.len() - i,
    {
        let picked = match m.get(&urls[i]) {
            Some(c) => Some(ChosenFormat { format_id: c.format_id.clone(), video_only: c.video_only }),
            None => None,
        };
        r.push(picked);
        i = i + 1;
    }
    r
}

/// Every leading `p` removed, as `str::trim_start_matches` does.
pub open spec fn strip_prefix_all(s: Seq<char>, p: Seq<char>) -> Seq<char>
    decreases s.len(),
{
    if p.len() > 0 && starts_with(s, p) {
        strip_prefix_all(s.skip(p.len() as int), p)
    } else {
        s
    }
}

/// The text between the first `://` and the next one (the second piece of
/// `split("://")`), or the whole URL without a scheme separator.
pub open spec fn after_scheme(url: Seq<char>) -> Seq<char> {
    match split_once(url, "://"@) {
        Some((_before, rest)) => match find(rest, "://"@) {
            Some(k) => rest.take(k),
            None => rest,
        },
        None => url,
    }
}

/// The text before the first `/`.
pub open spec fn before_slash(s: Seq<char>) -> Seq<char> {
    match find(s, "/"@) {
        Some(k) => s.take(k),
        None => s,
    }
}

/// A URL's host without leading `www.`, or none when the host is empty.
pub open spec fn host_of_spec(url: Seq<char>) -> Option<Seq<char>> {
    let host = before_slash(after_scheme(url));
    if host.len() == 0 {
        None
    } else {
        Some(strip_prefix_all(host, "www."@))
    }
}

fn before_first(v: &Vec<char>, p: &str) -> (out: Vec<char>)
    ensures
        out@ == match find(v@, p@) {
            Some(k) => v@.take(k),
            None => v@,
        },
{
    let pv = chars_of(p);
    proof {
        lemma_find(v@, pv@);
    }
    match find_chars(v, &pv) {
        Some(k) => {
            let out = slice_chars(v, 0, k);
            assert(out@ =~= v@.take(k as int));
            out
        },
        None => slice_chars(v, 0, v.len()),
    }
}

/// A fresh id for a queued job: a random version 4 uuid, or none where the
/// operating system's random source fails.
pub fn new_job_id() -> (id: Option<String>)
    ensures
        id matches Some(s) ==> is_v4_uuid_text(s@),
{
    new_uuid()
}

/// The URL's host, used as the platform when yt-dlp reports no extractor.
pub fn host_of(url: &str) -> (r: Option<String>)
    ensures
        opt_text(r) == host_of_spec(url@),
{
    let v = chars_of(url);
    let sep = chars_of("://");
    proof {
        reveal_strlit("://");
        lemma_find(v@, sep@);
    }
    let after = match find_chars(&v, &sep) {
        Some(k) => {
            assert(occurs_at(v@, sep@, k as int));
            assert(sep@.len() == 3);
            let n = v.len();
            assert(k + 3 <= n);
            let rest = slice_chars(&v, k + 3, v.len());
            assert(rest@ =~= v@.skip(k + 3));
            before_first(&rest, "://")
        },
        None => slice_chars(&v, 0, v.len()),
    };
    assert(after@ =~= after_scheme(url@));
    let host = before_first(&after, "/");
    if host.len() == 0 {
        return None;
    }
    let www = chars_of("www.");
    proof {
        reveal_strlit("www.");
    }
    let mut start: usize = 0;
    assert(host@.skip(0) =~= host@);
    while crate::text::matches_at(&host, &www, start)
        invariant
            www@ == "www."@,
            www@.len() == 4,
            start <= host@.len(),
            strip_prefix_all(host@.skip(start as int), "www."@) == strip_prefix_all(
                host@,
                "www."@,
            ),
        decreases host@.len() - start,
    {
        assert(host@.skip(start as int).subrange(0, 4) =~= host@.subrange(
            start as int,
            start + 4,
        ));
        assert(host@.skip(start as int).skip(4) =~= host@.skip(start + 4));
        let n = host.len();
        assert(start + 4 <= n);
        start = start + 4;
    }
    assert(host@.skip(start as int).subrange(0, 4) =~= host@.subrange(start as int, start + 4)
        || host@.len() < start + 4);
    let t = slice_chars(&host, start, host.len());
    assert(t@ =~= host@.skip(start as int));
    Some(string_from(t.as_slice()))
}

/// The platform recorded in history: the extractor yt-dlp reported, else
/// the URL's host.
pub fn platform_of(extractor: Option<String>, url: &str) -> (r: Option<String>)
    ensures
        opt_text(r) == match opt_text(extractor) {
            Some(e) => Some(e),
            None => host_of_spec(url@),
        },
{
    match extractor {
        Some(e) => Some(e),
        None => host_of(url),
    }
}

/// The last named component of a path split at `/`: empty and `.`
/// segments are passed over, and a final `..` names nothing.
pub open spec fn last_named(segs: Seq<Seq<char>>) -> Option<Seq<char>>
    decreases segs.len(),
{
    if segs.len() == 0 {
        None
    } else {
        let l = segs.last();
        if l.len() == 0 || l == "."@ {
            last_named(segs.drop_last())
        } else if l == ".."@ {
            None
        } else {
            Some(l)
        }
    }
}

/// A path's file name, as `Path::file_name` gives it on Unix.
pub open spec fn file_name_spec(path: Seq<char>) -> Option<Seq<char>> {
    last_named(split_on(path, '/'))
}

/// The file name recorded in history for a downloaded file's path.
pub fn file_name_of(path: &str) -> (r: Option<String>)
    ensures
        opt_text(r) == file_name_spec(path@),
{
    let parts = split_chars(&chars_of(path), '/');
    let ghost segs = texts(parts@);
    let mut k: usize = parts.len();
    assert(segs.take(k as int) =~= segs);
    while k > 0
        invariant
            segs == texts(parts@),
            segs == split_on(path@, '/'),
            k <= parts@.len(),
            last_named(segs.take(k as int)) == last_named(segs),
        decreases k,
    {
        let ghost pre = segs.take(k as int);
        assert(pre.last() == parts@[k - 1]@);
        assert(pre.drop_last() =~= segs.take(k - 1));
        let p = parts[k - 1].as_str();
        if p.unicode_len() == 0 || str_eq(p, ".") {
            k = k - 1;
        } else if str_eq(p, "..") {
            return None;
        } else {
            return Some(parts[k - 1].clone());
        }
    }
    None
}

/// How a job ended.
pub enum JobOutcome {
    /// Nothing was fetched because the file was already on disk.
    Skipped,
    Completed,
    Failed,
}

/// The status a finished job is recorded and reported with.
pub open spec fn outcome_status_spec(o: JobOutcome) -> Seq<char> {
    match o {
        JobOutcome::Skipped => "skipped"@,
        JobOutcome::Completed => "completed"@,
        JobOutcome::Failed => "error"@,
    }
}

/// The status text for an outcome.
pub fn outcome_status(o: &JobOutcome) -> (s: &'static str)
    ensures
        s@ == outcome_status_spec(*o),
{
    match o {
        JobOutcome::Skipped => "skipped",
        JobOutcome::Completed => "completed",
        JobOutcome::Failed => "error",
    }
}

/// What one progress line asks of the reader.
pub enum ProgressStep {
    /// yt-dlp reported an error for this line.
    ReportError,
    /// Fold the line into the overall percent; show it when `show` holds.
    Update { finished: bool, show: bool },
}

/// What the stdout reader has learnt of a job so far.
pub struct ReaderState {
    /// yt-dlp skipped the fetch because the file was already on disk.
    pub already_downloaded: bool,
    /// Some real transfer happened.
    pub saw_transfer: bool,
}

impl ReaderState {
    /// Nothing seen yet.
    pub fn new() -> (s: Self)
        ensures
            !s.already_downloaded,
            !s.saw_transfer,
    {
        ReaderState { already_downloaded: false, saw_transfer: false }
    }

    /// Records a progress line with this status. A skipped file still
    /// prints one `finished` line; it is not shown, so a job that never
    /// transferred a byte does not flash "Merging…" before "Skipped".
    pub fn on_progress(&mut self, status: &str) -> (step: ProgressStep)
        ensures
            status@ == "error"@ ==> step == ProgressStep::ReportError && *final(self) == *old(
                self,
            ),
            status@ != "error"@ ==> {
                &&& final(self).already_downloaded == old(self).already_downloaded
                &&& final(self).saw_transfer == (old(self).saw_transfer || status@
                    == "downloading"@)
                &&& step == ProgressStep::Update {
                    finished: status@ == "finished"@,
                    show: !(final(self).already_downloaded && !final(self).saw_transfer),
                }
            },
    {
        if str_eq(status, "error") {
            return ProgressStep::ReportError;
        }
        if str_eq(status, "downloading") {
            self.saw_transfer = true;
        }
        ProgressStep::Update {
            finished: str_eq(status, "finished"),
            show: !(self.already_downloaded && !self.saw_transfer),
        }
    }

    /// The job's outcome once its process has exited.
    pub fn outcome(&self, succeeded: bool) -> (o: JobOutcome)
        ensures
            o == if succeeded && self.already_downloaded && !self.saw_transfer {
                JobOutcome::Skipped
            } else if succeeded {
                JobOutcome::Completed
            } else {
                JobOutcome::Failed
            },
    {
        if succeeded && self.already_downloaded && !self.saw_transfer {
            JobOutcome::Skipped
        } else if succeeded {
            JobOutcome::Completed
        } else {
            JobOutcome::Failed
        }
    }
}

/// One stdout line of a running job, classified in the order the reader
/// checks: the final path and the extractor reported by `--print`, the
/// already-downloaded notice, then a progress line, then a merge log line.
pub enum StdoutLine {
    /// The final file's path, trimmed.
    FinalPath(String),
    /// The extractor that handled the URL, trimmed.
    Extractor(String),
    AlreadyDownloaded,
    Progress(ProgressParts),
    Merge,
    Other,
}

/// The text after `prefix`, trimmed, for a line that starts with it.
pub open spec fn reported_value(line: Seq<char>, prefix: Seq<char>) -> Seq<char> {
    trim(line.skip(prefix.len() as int))
}

fn trimmed_after(line: &str, prefix: &str) -> (r: Option<String>)
    ensures
        match r {
            Some(t) => starts_with(line@, prefix@) && t@ == reported_value(line@, prefix@),
            None => !starts_with(line@, prefix@),
        },
{
    if !str_starts_with(line, prefix) {
        return None;
    }
    let v = chars_of(line);
    let p = chars_of(prefix);
    let n = v.len();
    assert(p@.len() <= n);
    let rest = slice_chars(&v, p.len(), n);
    assert(rest@ =~= line@.skip(prefix@.len() as int));
    let rs = string_from(rest.as_slice());
    Some(str_trim(rs.as_str()))
}

/// Classifies one stdout line of a running job, recording an
/// already-downloaded notice in the reader state.
pub fn classify_line(state: &mut ReaderState, line: &str) -> (r: StdoutLine)
    ensures
        final(state).saw_transfer == old(state).saw_transfer,
        starts_with(line@, PRINT_PATH_PREFIX@) ==> {
            &&& r matches StdoutLine::FinalPath(t) && t@ == reported_value(line@, PRINT_PATH_PREFIX@)
            &&& *final(state) == *old(state)
        },
        !starts_with(line@, PRINT_PATH_PREFIX@) && starts_with(line@, PRINT_EXTRACTOR_PREFIX@) ==> {
            &&& r matches StdoutLine::Extractor(t) && t@ == reported_value(
                line@,
                PRINT_EXTRACTOR_PREFIX@,
            )
            &&& *final(state) == *old(state)
        },
        !starts_with(line@, PRINT_PATH_PREFIX@) && !starts_with(line@, PRINT_EXTRACTOR_PREFIX@)
            && contains(line@, "has already been downloaded"@) ==> {
            &&& r is AlreadyDownloaded
            &&& final(state).already_downloaded
        },
        !starts_with(line@, PRINT_PATH_PREFIX@) && !starts_with(line@, PRINT_EXTRACTOR_PREFIX@)
            && !contains(line@, "has already been downloaded"@) ==> {
            &&& *final(state) == *old(state)
            &&& is_progress_line(line@) ==> (r matches StdoutLine::Progress(p) && parts_of(p)
                == progress_parts_spec(line@))
            &&& !is_progress_line(line@) && is_merge_line_spec(line@) ==> r is Merge
            &&& !is_progress_line(line@) && !is_merge_line_spec(line@) ==> r is Other
        },
{
    match trimmed_after(line, PRINT_PATH_PREFIX) {
        Some(t) => return StdoutLine::FinalPath(t),
        None => {},
    }
    match trimmed_after(line, PRINT_EXTRACTOR_PREFIX) {
        Some(t) => return StdoutLine::Extractor(t),
        None => {},
    }
    if is_already_downloaded_line(line) {
        state.already_downloaded = true;
        return StdoutLine::AlreadyDownloaded;
    }
    match parse_progress_parts(line) {
        Some(p) => StdoutLine::Progress(p),
        None => if is_merge_line(line) {
            StdoutLine::Merge
        } else {
            StdoutLine::Other
        },
    }
}

/// How many stderr lines a job keeps for its error report.
pub const JOB_STDERR_TAIL_LINES: usize = 40;

/// Adds a stderr line to a job's tail, dropping the oldest once it is full.
pub fn push_tail_line(buf: &mut VecDeque<String>, line: String)
    requires
        old(buf)@.len() <= JOB_STDERR_TAIL_LINES,
    ensures
        final(buf)@ == if old(buf)@.len() == JOB_STDERR_TAIL_LINES {
            old(buf)@.drop_first().push(line)
        } else {
            old(buf)@.push(line)
        },
        final(buf)@.len() <= JOB_STDERR_TAIL_LINES,
{
    if buf.len() == JOB_STDERR_TAIL_LINES {
        let _ = buf.pop_front();
        assert(buf@ =~= old(buf)@.drop_first());
    }
    buf.push_back(line);
}

/// Law: the tail always holds the last (up to forty) lines written, oldest
/// first — adding a line to the tail of a stream gives the tail of the
/// longer stream.
pub proof fn law_tail_keeps_last_lines(all: Seq<String>, line: String)
    ensures
        ({
            let buf = last_n(all, JOB_STDERR_TAIL_LINES as nat);
            let next = if buf.len() == JOB_STDERR_TAIL_LINES {
                buf.drop_first().push(line)
            } else {
                buf.push(line)
            };
            next == last_n(all.push(line), JOB_STDERR_TAIL_LINES as nat)
        }),
{
    let buf = last_n(all, JOB_STDERR_TAIL_LINES as nat);
    if all.len() >= JOB_STDERR_TAIL_LINES {
        assert(buf.drop_first().push(line) =~= last_n(all.push(line), JOB_STDERR_TAIL_LINES as nat));
    } else {
        assert(buf.push(line) =~= last_n(all.push(line), JOB_STDERR_TAIL_LINES as nat));
    }
}

/// The stderr tail as one text, or none when it is empty.
pub open spec fn tail_text_spec(lines: Seq<Seq<char>>) -> Option<Seq<char>> {
    let t = join(lines, "\n"@);
    if t.len() == 0 {
        None
    } else {
        Some(t)
    }
}

/// Joins a job's stderr tail for an error report.
pub fn tail_text(buf: &VecDeque<String>) -> (r: Option<String>)
    ensures
        opt_text(r) == tail_text_spec(texts(buf@)),
{
    let mut lines: Vec<String> = Vec::new();
    let mut i: usize = 0;
    while i < buf.len()
        invariant
            i <= buf@.len(),
            texts(lines@) == texts(buf@).take(i as int),
        decreases buf@.len() - i,
    {
        push_text(&mut lines, buf[i].clone());
        i = i + 1;
        assert(texts(lines@) =~= texts(buf@).take(i as int));
    }
    assert(texts(buf@).take(buf@.len() as int) =~= texts(buf@));
    let t = join_strings(&lines, "\n");
    if t.as_str().unicode_len() == 0 {
        None
    } else {
        Some(t)
    }
}

} // verus!
