//! The "Choose format first" probe: turning what `yt-dlp -j` reports into
//! the rows of the format picker, and the texts shown around it.

use vstd::prelude::*;

use serde_json::Value;

use crate::args::{join_words, opt_text, push_lit, push_text, shell_join, shell_split};
use crate::text::{
    chars_of, decimal, decimal_string, has_content, is_blank, join, join_strings, lines,
    starts_with, str_eq, str_lines, str_starts_with, str_trim_start, texts, trim_start,
};

verus! {

/// What the user asked to probe.
pub struct ProbeRequest {
    pub urls: Vec<String>,
    pub parameters: String,
}

/// The text-valued keys of one entry of a probed `formats` list, each
/// present where the key holds a JSON string.
pub struct FormatFields {
    pub format_id: Option<String>,
    pub ext: Option<String>,
    pub protocol: Option<String>,
    pub resolution: Option<String>,
    pub vcodec: Option<String>,
    pub acodec: Option<String>,
}

/// The text columns of a selectable format row. `resolution` is absent when
/// the entry gave none as text (the numeric width/height fallback is left to
/// the caller).
pub struct FormatTexts {
    pub format_id: String,
    pub ext: String,
    pub resolution: Option<String>,
    pub proto: String,
    pub vcodec: String,
    pub acodec: String,
}

/// A text field, or `fallback` where the entry had none.
pub open spec fn or_default(v: Option<Seq<char>>, fallback: Seq<char>) -> Seq<char> {
    match v {
        Some(t) => t,
        None => fallback,
    }
}

/// The text-valued keys of a format entry as plain values, in the order
/// format_id, ext, protocol, resolution, vcodec, acodec.
pub type FieldsView = (
    Option<Seq<char>>,
    Option<Seq<char>>,
    Option<Seq<char>>,
    Option<Seq<char>>,
    Option<Seq<char>>,
    Option<Seq<char>>,
);

/// A selectable row as plain values: format_id, ext, resolution (when given
/// as text), protocol, vcodec, acodec.
pub type RowView = (Seq<char>, Seq<char>, Option<Seq<char>>, Seq<char>, Seq<char>, Seq<char>);

/// The entry's keys as plain values.
pub open spec fn fields_view(f: FormatFields) -> FieldsView {
    (
        opt_text(f.format_id),
        opt_text(f.ext),
        opt_text(f.protocol),
        opt_text(f.resolution),
        opt_text(f.vcodec),
        opt_text(f.acodec),
    )
}

/// A storyboard (a grid of preview images) is recognized by its mhtml
/// container, not by missing codecs: many real formats report no codecs.
pub open spec fn is_storyboard(f: FieldsView) -> bool {
    or_default(f.1, seq![]) == "mhtml"@ || or_default(f.2, seq![]) == "mhtml"@
}

/// The row an entry becomes: none without a format id or for a storyboard;
/// otherwise its texts, with `?` for a missing container or protocol and
/// `none` for a missing codec.
pub open spec fn parse_fields_spec(f: FieldsView) -> Option<RowView> {
    match f.0 {
        None => None,
        Some(id) => if is_storyboard(f) {
            None
        } else {
            Some(
                (
                    id,
                    or_default(f.1, "?"@),
                    f.3,
                    or_default(f.2, "?"@),
                    or_default(f.4, "none"@),
                    or_default(f.5, "none"@),
                ),
            )
        },
    }
}

/// The row a probed entry becomes (see `parse_fields_spec`).
pub open spec fn parse_format_spec(f: FormatFields) -> Option<RowView> {
    parse_fields_spec(fields_view(f))
}

/// Law: an entry is dropped only when it has no format id or is a
/// storyboard (an `mhtml` container or protocol); every other entry becomes
/// a row, whatever its codecs report — a video-only entry (acodec `none`)
/// or one with no codec metadata is kept.
pub proof fn law_only_storyboards_are_dropped(f: FieldsView)
    ensures
        parse_fields_spec(f) is None <==> (f.0 is None || f.1 == Some("mhtml"@) || f.2 == Some(
            "mhtml"@,
        )),
{
    reveal_strlit("mhtml");
    assert("mhtml"@.len() == 5);
}

/// Law: the codecs an entry reports decide neither whether it becomes a row
/// nor its id, container, resolution and protocol; they only fill the codec
/// columns, with `none` where one is missing.
pub proof fn law_codecs_do_not_decide_the_row(
    f: FieldsView,
    vcodec: Option<Seq<char>>,
    acodec: Option<Seq<char>>,
)
    ensures
        ({
            let g = (f.0, f.1, f.2, f.3, vcodec, acodec);
            &&& (parse_fields_spec(f) is Some <==> parse_fields_spec(g) is Some)
            &&& parse_fields_spec(g) matches Some(row) ==> {
                &&& row.0 == f.0->0
                &&& row.2 == f.3
                &&& row.4 == match vcodec {
                    Some(v) => v,
                    None => "none"@,
                }
                &&& row.5 == match acodec {
                    Some(a) => a,
                    None => "none"@,
                }
                &&& parse_fields_spec(f) matches Some(r0) && r0.1 == row.1 && r0.3 == row.3
            }
        }),
{
}

/// The row as plain values.
pub open spec fn format_texts_view(t: FormatTexts) -> RowView {
    (t.format_id@, t.ext@, opt_text(t.resolution), t.proto@, t.vcodec@, t.acodec@)
}

fn text_or(v: &Option<String>, fallback: &str) -> (r: String)
    ensures
        r@ == or_default(opt_text(*v), fallback@),
{
    match v {
        Some(t) => t.clone(),
        None => String::from_str(fallback),
    }
}

fn is_mhtml(v: &Option<String>) -> (r: bool)
    ensures
        r == (or_default(opt_text(*v), seq![]) == "mhtml"@),
{
    match v {
        Some(t) => str_eq(t.as_str(), "mhtml"),
        None => {
            proof {
                reveal_strlit("mhtml");
                assert("mhtml"@.len() == 5);
            }
            false
        },
    }
}

/// Turns one probed entry into a selectable row, skipping storyboards.
pub fn parse_format(f: &FormatFields) -> (r: Option<FormatTexts>)
    ensures
        match r {
            Some(t) => parse_format_spec(*f) == Some(format_texts_view(t)),
            None => parse_format_spec(*f) is None,
        },
{
    let format_id = match &f.format_id {
        Some(id) => id.clone(),
        None => return None,
    };
    if is_mhtml(&f.ext) || is_mhtml(&f.protocol) {
        return None;
    }
    Some(
        FormatTexts {
            format_id,
            ext: text_or(&f.ext, "?"),
            resolution: f.resolution.clone(),
            proto: text_or(&f.protocol, "?"),
            vcodec: text_or(&f.vcodec, "none"),
            acodec: text_or(&f.acodec, "none"),
        },
    )
}

/// How many stderr lines a failed probe reports.
pub const STDERR_TAIL_LINES: usize = 25;

/// The lines that hold something besides white space, in order.
pub open spec fn nonblank(ls: Seq<Seq<char>>) -> Seq<Seq<char>>
    decreases ls.len(),
{
    if ls.len() == 0 {
        seq![]
    } else if is_blank(ls.last()) {
        nonblank(ls.drop_last())
    } else {
        nonblank(ls.drop_last()).push(ls.last())
    }
}

/// The last `n` elements (all of them when there are fewer).
pub open spec fn last_n<T>(s: Seq<T>, n: nat) -> Seq<T> {
    if s.len() <= n {
        s
    } else {
        s.skip(s.len() - n)
    }
}

/// The error shown for a failed probe: the last non-blank stderr lines,
/// since yt-dlp's real cause is routinely a warning a few lines above the
/// final error.
pub open spec fn stderr_message_spec(stderr: Seq<char>) -> Seq<char> {
    let ls = nonblank(lines(stderr));
    if ls.len() == 0 {
        "yt-dlp exited with an error"@
    } else {
        join(last_n(ls, STDERR_TAIL_LINES as nat), seq!['\n'])
    }
}

/// The error text for a failed probe's stderr.
pub fn stderr_message(stderr: &str) -> (out: String)
    ensures
        out@ == stderr_message_spec(stderr@),
{
    let all = str_lines(stderr);
    let ghost ls = texts(all@);
    let mut kept: Vec<String> = Vec::new();
    let mut i: usize = 0;
    assert(ls.take(0) =~= Seq::<Seq<char>>::empty());
    while i < all.len()
        invariant
            ls == texts(all@),
            ls.len() == all@.len(),
            i <= all@.len(),
            texts(kept@) == nonblank(ls.take(i as int)),
        decreases all@.len() - i,
    {
        assert(ls.take(i + 1).drop_last() =~= ls.take(i as int));
        assert(ls.take(i + 1).last() == all@[i as int]@);
        if has_content(all[i].as_str()) {
            push_text(&mut kept, all[i].clone());
        }
        i = i + 1;
    }
    assert(ls.take(all@.len() as int) =~= ls);
    if kept.len() == 0 {
        return String::from_str("yt-dlp exited with an error");
    }
    let start = if kept.len() > STDERR_TAIL_LINES {
        kept.len() - STDERR_TAIL_LINES
    } else {
        0
    };
    let mut tail: Vec<String> = Vec::new();
    let mut j: usize = start;
    while j < kept.len()
        invariant
            start <= j <= kept@.len(),
            texts(tail@) == texts(kept@).subrange(start as int, j as int),
        decreases kept@.len() - j,
    {
        push_text(&mut tail, kept[j].clone());
        j = j + 1;
        assert(texts(tail@) =~= texts(kept@).subrange(start as int, j as int));
    }
    assert(texts(tail@) =~= last_n(texts(kept@), STDERR_TAIL_LINES as nat));
    proof {
        reveal_strlit("\n");
        assert("\n"@ =~= seq!['\n']);
    }
    join_strings(&tail, "\n")
}

/// A stdout line that carries one JSON document (`-j` prints one per video).
pub open spec fn is_json_doc_line_spec(line: Seq<char>) -> bool {
    starts_with(trim_start(line), "{"@)
}

/// Whether a stdout line of a probe is one of its JSON documents.
pub fn is_json_doc_line(line: &str) -> (r: bool)
    ensures
        r == is_json_doc_line_spec(line@),
{
    let t = str_trim_start(line);
    str_starts_with(t.as_str(), "{")
}

/// The title shown for a probed URL: the first document's title, with the
/// number of further playlist entries when there are any.
pub open spec fn probe_title_spec(title: Seq<char>, docs: nat) -> Seq<char> {
    if docs > 1 {
        title + " (+"@ + decimal((docs - 1) as nat) + " more in playlist)"@
    } else {
        title
    }
}

/// The picker's title for a URL that returned `docs` documents.
pub fn probe_title(title: &str, docs: usize) -> (out: String)
    ensures
        out@ == probe_title_spec(title@, docs as nat),
{
    let mut out = String::from_str(title);
    if docs > 1 {
        out.append(" (+");
        let n = decimal_string((docs - 1) as u64);
        out.append(n.as_str());
        out.append(" more in playlist)");
    }
    out
}

/// What a probe that exited successfully shows for a URL, given how many
/// JSON documents it printed, the first one's title and how many selectable
/// rows its format list gave: the picker's title, or the error when nothing
/// usable came back.
pub open spec fn probe_result_spec(
    url: Seq<char>,
    docs: nat,
    title: Option<Seq<char>>,
    rows: nat,
) -> Result<Seq<char>, Seq<char>> {
    if docs == 0 {
        Err("yt-dlp returned no video metadata"@)
    } else if rows == 0 {
        Err("no downloadable formats found"@)
    } else {
        Ok(probe_title_spec(or_default(title, url), docs))
    }
}

/// Decides a successful probe's row: its title, or why it shows no formats.
pub fn probe_result(url: &str, docs: usize, title: Option<String>, rows: usize) -> (r: Result<
    String,
    String,
>)
    ensures
        match r {
            Ok(t) => probe_result_spec(url@, docs as nat, opt_text(title), rows as nat) == Ok::<
                Seq<char>,
                Seq<char>,
            >(t@),
            Err(e) => probe_result_spec(url@, docs as nat, opt_text(title), rows as nat) == Err::<
                Seq<char>,
                Seq<char>,
            >(e@),
        },
{
    if docs == 0 {
        return Err(String::from_str("yt-dlp returned no video metadata"));
    }
    if rows == 0 {
        return Err(String::from_str("no downloadable formats found"));
    }
    let shown = match title {
        Some(t) => t,
        None => String::from_str(url),
    };
    Ok(probe_title(shown.as_str(), docs))
}

/// What the picker reads of one `-j` document: its title and id where they
/// are JSON strings, and the entries of its `formats` array where it has one.
pub struct ProbeDoc {
    pub title: Option<String>,
    pub id: Option<String>,
    pub formats: Option<Vec<FormatFields>>,
}

/// A document's text content as plain values.
pub type DocView = (Option<Seq<char>>, Option<Seq<char>>, Option<Seq<FieldsView>>);

/// The plain values of a document.
pub open spec fn doc_view(d: ProbeDoc) -> DocView {
    (
        opt_text(d.title),
        opt_text(d.id),
        match d.formats {
            Some(v) => Some(v@.map_values(|f: FormatFields| fields_view(f))),
            None => None,
        },
    )
}

/// The plain values of a parse result.
pub open spec fn parsed_doc_view(r: Option<ProbeDoc>) -> Option<DocView> {
    match r {
        Some(d) => Some(doc_view(d)),
        None => None,
    }
}

/// Name for what `serde_json::from_str` gives for a line, read as a probe
/// document: none where the line is not JSON; otherwise the `title` and `id`
/// keys where they hold strings, and the text keys of each entry of the
/// `formats` array where there is one.
pub uninterp spec fn json_probe_doc(line: Seq<char>) -> Option<DocView>;

/// Calls `serde_json::from_str` on one line and reads the keys the picker
/// uses (`Value::get` with `as_str` / `as_array`); the result is the named
/// reading of that line.
#[verifier::external_body]
fn parse_probe_doc(line: &str) -> (r: Option<ProbeDoc>)
    ensures
        parsed_doc_view(r) == json_probe_doc(line@),
{
    let v: Value = serde_json::from_str(line).ok()?;
    let text = |x: &Value, k: &str| x.get(k).and_then(Value::as_str).map(str::to_string);
    let formats = v.get("formats").and_then(Value::as_array).map(|list| list.iter().map(|f| FormatFields { format_id: text(f, "format_id"), ext: text(f, "ext"), protocol: text(f, "protocol"), resolution: text(f, "resolution"), vcodec: text(f, "vcodec"), acodec: text(f, "acodec") }).collect());
    Some(ProbeDoc { title: text(&v, "title"), id: text(&v, "id"), formats })
}

/// The documents among a probe's stdout lines, each with the index of its
/// line: the lines that start (after white space) with `{` and parse, in
/// order.
pub open spec fn docs_in(ls: Seq<Seq<char>>) -> Seq<(int, DocView)>
    decreases ls.len(),
{
    if ls.len() == 0 {
        seq![]
    } else {
        let before = docs_in(ls.drop_last());
        let l = ls.last();
        if is_json_doc_line_spec(l) && json_probe_doc(l) is Some {
            before.push(((ls.len() - 1) as int, json_probe_doc(l)->0))
        } else {
            before
        }
    }
}

/// The documents of a probe's stdout, with their line indices.
pub open spec fn docs_of(stdout: Seq<char>) -> Seq<(int, DocView)> {
    docs_in(lines(stdout))
}

/// The selectable rows of a format list, each with its entry's index.
pub open spec fn rows_of(fs: Seq<FieldsView>) -> Seq<(int, RowView)>
    decreases fs.len(),
{
    if fs.len() == 0 {
        seq![]
    } else {
        let before = rows_of(fs.drop_last());
        match parse_fields_spec(fs.last()) {
            Some(row) => before.push(((fs.len() - 1) as int, row)),
            None => before,
        }
    }
}

/// The first document's format list (empty where it has none).
pub open spec fn first_formats(d: DocView) -> Seq<FieldsView> {
    match d.2 {
        Some(fs) => fs,
        None => seq![],
    }
}

/// What a successful probe run shows for a URL: from the first document,
/// the title (see `probe_result_spec`), the video id (empty where there is
/// none), the selectable rows and the index of the document's line; or the
/// error when nothing usable came back.
pub open spec fn probe_outcome_spec(url: Seq<char>, docs: Seq<(int, DocView)>) -> Result<
    (Seq<char>, Seq<char>, Seq<(int, RowView)>, int),
    Seq<char>,
> {
    if docs.len() == 0 {
        Err("yt-dlp returned no video metadata"@)
    } else {
        let (line, d) = docs[0];
        let rows = rows_of(first_formats(d));
        match probe_result_spec(url, docs.len(), d.0, rows.len()) {
            Err(e) => Err(e),
            Ok(title) => Ok((title, or_default(d.1, seq![]), rows, line)),
        }
    }
}

/// The rows of a probe as plain values.
pub open spec fn rows_view(v: Seq<(usize, FormatTexts)>) -> Seq<(int, RowView)> {
    v.map_values(|p: (usize, FormatTexts)| (p.0 as int, format_texts_view(p.1)))
}

fn doc_rows(fs: &Vec<FormatFields>) -> (rows: Vec<(usize, FormatTexts)>)
    ensures
        rows_view(rows@) == rows_of(fs@.map_values(|f: FormatFields| fields_view(f))),
{
    let ghost all = fs@.map_values(|f: FormatFields| fields_view(f));
    let mut rows: Vec<(usize, FormatTexts)> = Vec::new();
    let mut j: usize = 0;
    while j < fs.len()
        invariant
            all == fs@.map_values(|f: FormatFields| fields_view(f)),
            j <= fs@.len(),
            rows_view(rows@) == rows_of(all.take(j as int)),
        decreases fs@.len() - j,
    {
        assert(all.take(j + 1).drop_last() =~= all.take(j as int));
        assert(all.take(j + 1).last() == fields_view(fs@[j as int]));
        let ghost before = rows@;
        match parse_format(&fs[j]) {
            Some(t) => {
                rows.push((j, t));
                assert(rows_view(rows@) =~= rows_view(before).push((j as int, format_texts_view(t))));
            },
            None => {},
        }
        j = j + 1;
    }
    assert(all.take(fs@.len() as int) =~= all);
    rows
}

/// Reads a successful probe's stdout: the JSON documents among its lines,
/// then, from the first one, the title, the video id and the selectable
/// rows (each with the index of its entry in the document's `formats`),
/// along with the index of that document's line among `stdout`'s lines, from
/// which the caller reads the numeric fields; or the error shown when there
/// is no document or no selectable format.
pub fn probe_stdout(url: &str, stdout: &str) -> (r: Result<
    (String, String, Vec<(usize, FormatTexts)>, usize),
    String,
>)
    ensures
        match r {
            Ok(p) => probe_outcome_spec(url@, docs_of(stdout@)) == Ok::<
                (Seq<char>, Seq<char>, Seq<(int, RowView)>, int),
                Seq<char>,
            >((p.0@, p.1@, rows_view(p.2@), p.3 as int)),
            Err(e) => probe_outcome_spec(url@, docs_of(stdout@)) == Err::<
                (Seq<char>, Seq<char>, Seq<(int, RowView)>, int),
                Seq<char>,
            >(e@),
        },
{
    let ls = str_lines(stdout);
    let ghost lv = texts(ls@);
    let mut docs: Vec<(usize, ProbeDoc)> = Vec::new();
    let mut i: usize = 0;
    assert(lv.take(0) =~= Seq::<Seq<char>>::empty());
    while i < ls.len()
        invariant
            lv == texts(ls@),
            lv.len() == ls@.len(),
            lv == lines(stdout@),
            i <= ls@.len(),
            docs@.map_values(|d: (usize, ProbeDoc)| (d.0 as int, doc_view(d.1))) == docs_in(
                lv.take(i as int),
            ),
        decreases ls@.len() - i,
    {
        assert(lv.take(i + 1).drop_last() =~= lv.take(i as int));
        assert(lv.take(i + 1).last() == ls@[i as int]@);
        if is_json_doc_line(ls[i].as_str()) {
            match parse_probe_doc(ls[i].as_str()) {
                Some(d) => {
                    let ghost before = docs@;
                    docs.push((i, d));
                    assert(docs@.map_values(|d: (usize, ProbeDoc)| (d.0 as int, doc_view(d.1)))
                        =~= before.map_values(
                        |d: (usize, ProbeDoc)| (d.0 as int, doc_view(d.1)),
                    ).push((i as int, doc_view(d))));
                },
                None => {},
            }
        }
        i = i + 1;
    }
    assert(lv.take(ls@.len() as int) =~= lv);
    let ghost dv = docs@.map_values(|d: (usize, ProbeDoc)| (d.0 as int, doc_view(d.1)));
    assert(dv == docs_of(stdout@));
    let count = docs.len();
    if count == 0 {
        return Err(String::from_str("yt-dlp returned no video metadata"));
    }
    let (line, first) = docs.remove(0);
    assert(line as int == dv[0].0 && doc_view(first) == dv[0].1);
    let ProbeDoc { title, id, formats } = first;
    let rows = match &formats {
        Some(fs) => doc_rows(fs),
        None => Vec::new(),
    };
    assert(rows_view(rows@) =~= rows_of(first_formats(dv[0].1)));
    match probe_result(url, count, title, rows.len()) {
        Err(e) => Err(e),
        Ok(shown) => {
            let video_id = match id {
                Some(v) => v,
                None => String::new(),
            };
            Ok((shown, video_id, rows, line))
        },
    }
}

/// Counter identifying the probe batch that currently owns the picker:
/// cancelling moves it on, and a batch stops at its next chunk once the
/// counter is no longer the one it started under.
pub struct ProbeEpoch(pub u64);

impl ProbeEpoch {
    /// The counter a fresh app starts with.
    pub fn new() -> (e: Self)
        ensures
            e.0 == 0,
    {
        ProbeEpoch(0)
    }

    /// The counter a batch records when it starts.
    pub fn current(&self) -> (n: u64)
        ensures
            n == self.0,
    {
        self.0
    }

    /// Cancels the running batch by moving the counter on (wrapping, as an
    /// atomic increment does).
    pub fn cancel(&mut self)
        ensures
            final(self).0 == next_epoch(old(self).0),
    {
        if self.0 == u64::MAX {
            self.0 = 0;
        } else {
            self.0 = self.0 + 1;
        }
    }

    /// Whether the batch that started under `mine` still owns the picker.
    pub fn still_owned_by(&self, mine: u64) -> (r: bool)
        ensures
            r == (self.0 == mine),
    {
        self.0 == mine
    }
}

impl Default for ProbeEpoch {
    fn default() -> (e: Self)
        ensures
            e.0 == 0,
    {
        ProbeEpoch(0)
    }
}

/// The counter after a cancel: one more, wrapping at the top.
pub open spec fn next_epoch(n: u64) -> u64 {
    if n == u64::MAX {
        0
    } else {
        (n + 1) as u64
    }
}

/// Law: cancelling always takes ownership away from the batch that was
/// running under the counter's old value.
pub proof fn law_cancel_ends_the_running_batch(n: u64)
    ensures
        next_epoch(n) != n,
{
}

/// Renders an invocation the way a shell accepts it back, so it can be
/// pasted into a terminal unchanged.
pub fn quote_command(program: &str, args: &Vec<String>) -> (out: String)
    ensures
        out@ == shell_join(seq![program@] + texts(args@)),
        shell_split(out@) == Some(seq![program@] + texts(args@)),
{
    let mut parts: Vec<String> = Vec::new();
    push_lit(&mut parts, program);
    let mut i: usize = 0;
    while i < args.len()
        invariant
            i <= args@.len(),
            texts(parts@) == seq![program@] + texts(args@).take(i as int),
        decreases args@.len() - i,
    {
        push_text(&mut parts, args[i].clone());
        i = i + 1;
        assert(texts(parts@) =~= seq![program@] + texts(args@).take(i as int));
    }
    assert(texts(args@).take(args@.len() as int) =~= texts(args@));
    join_words(&parts)
}

} // verus!
