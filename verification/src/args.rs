//! Assembly of yt-dlp command-line arguments: the single place where the
//! user's Parameters text, the format-selection mode, the proxy and the
//! output template become the argument list of a download or a probe.

use vstd::prelude::*;

use crate::text::{
    chars_of, has_content, is_blank, lemma_trim_empty_iff_blank, starts_with, str_eq,
    join, replace_all, str_starts_with, string_from, texts, trim,
};

verus! {

/// Everything a download's argument list is built from.
pub struct DownloadRequest {
    pub url: String,
    pub download_to: String,
    /// Already tokenized (see `apply_mode`).
    pub parameters: Vec<String>,
    /// Resolved absolute path to ffmpeg, if found.
    pub ffmpeg_path: Option<String>,
    /// The configured proxy; blank means none.
    pub proxy: Option<String>,
}

/// The `--progress-template` every download passes, read back by
/// `progress::parse_progress_parts`.
pub const PROGRESS_TEMPLATE: &'static str = "dl:%(info.id)s|%(progress.status)s|%(progress.downloaded_bytes)s|%(progress.total_bytes)s|%(progress.total_bytes_estimate)s|%(progress.speed)s|%(progress.eta)s";

/// What starts the line yt-dlp prints with the final file's path once the
/// file is in place.
pub const PRINT_PATH_PREFIX: &'static str = "[final-path] ";

/// What starts the line yt-dlp prints with the extractor that handled the URL.
pub const PRINT_EXTRACTOR_PREFIX: &'static str = "[final-extractor] ";

/// The `--print` template for the final path: `PRINT_PATH_PREFIX`, then the path.
pub const PRINT_PATH_TEMPLATE: &'static str = "after_move:[final-path] %(filepath)s";

/// The `--print` template for the extractor: `PRINT_EXTRACTOR_PREFIX`, then its name.
pub const PRINT_EXTRACTOR_TEMPLATE: &'static str = "after_move:[final-extractor] %(extractor)s";

/// The message `parse_parameters` gives for text that does not tokenize.
pub const PARSE_ERROR: &'static str = "Parameters could not be parsed — check for an unbalanced quote.";

/// A format the user picked in the "Choose format first" flow.
pub struct ChosenFormat {
    pub format_id: String,
    pub video_only: bool,
}

// ---------------------------------------------------------------------------
// Outside calls

/// Name for the word list `shell_words::split` gives for a text, or `None`
/// where it reports a missing closing quote.
pub uninterp spec fn shell_split(s: Seq<char>) -> Option<Seq<Seq<char>>>;

/// Calls `shell_words::split`: its result is exactly the named word list,
/// and it fails exactly where the name says there is none.
#[verifier::external_body]
fn split_words(s: &str) -> (r: Option<Vec<String>>)
    ensures
        match r {
            Some(v) => shell_split(s@) == Some(texts(v@)),
            None => shell_split(s@) is None,
        },
{
    shell_words::split(s).ok()
}

/// A character that `shell_words::quote` treats as needing quotes.
pub open spec fn is_shell_special(c: char) -> bool {
    c == '\n' || c == '\'' || c == '|' || c == '&' || c == ';' || c == '<' || c == '>' || c
        == '(' || c == ')' || c == '$' || c == '`' || c == '\\' || c == '"' || c == ' ' || c
        == '\t' || c == '*' || c == '?' || c == '[' || c == '#' || c == '~' || c == '=' || c == '%'
}

/// How `shell_words::quote` renders one word: `''` for the empty word, the
/// word itself when nothing in it is special, and otherwise the word in
/// single quotes, each `'` in it written `'\''`.
pub open spec fn shell_quote(w: Seq<char>) -> Seq<char> {
    if w.len() == 0 {
        seq!['\'', '\'']
    } else if forall|i: int| 0 <= i < w.len() ==> !is_shell_special(#[trigger] w[i]) {
        w
    } else {
        seq!['\''] + replace_all(w, seq!['\''], seq!['\'', '\\', '\'', '\'']) + seq!['\'']
    }
}

/// How `shell_words::join` renders a word list: each word quoted, with one
/// space between neighbours.
pub open spec fn shell_join(words: Seq<Seq<char>>) -> Seq<char> {
    join(words.map_values(|w: Seq<char>| shell_quote(w)), seq![' '])
}

/// Calls `shell_words::join`: the result is each word quoted as
/// `shell_words::quote` does (see `shell_quote`) and joined with spaces, and
/// `shell_words::split` gives the same words back from it (each word is
/// quoted exactly where `split` would otherwise treat a character specially).
#[verifier::external_body]
pub(crate) fn join_words(words: &Vec<String>) -> (r: String)
    ensures
        r@ == shell_join(texts(words@)),
        shell_split(r@) == Some(texts(words@)),
{
    shell_words::join(words)
}

/// Calls `dirs::home_dir` and renders the path as text. It reads the
/// environment, so nothing is promised of what comes back.
#[verifier::external_body]
pub(crate) fn home_dir() -> (r: Option<String>) {
    match dirs::home_dir() {
        Some(p) => Some(p.to_string_lossy().to_string()),
        None => None,
    }
}

// ---------------------------------------------------------------------------
// Specification

/// Appends an owned string to a vector, tracking the character view.
pub fn push_text(v: &mut Vec<String>, s: String)
    ensures
        texts(final(v)@) == texts(old(v)@).push(s@),
{
    v.push(s);
    assert(texts(v@) =~= texts(old(v)@).push(s@));
}

/// Appends a copy of a literal to a vector, tracking the character view.
pub fn push_lit(v: &mut Vec<String>, s: &str)
    ensures
        texts(final(v)@) == texts(old(v)@).push(s@),
{
    push_text(v, String::from_str(s));
}

/// `rest` joined onto `base` as a POSIX path: an absolute `rest` replaces
/// `base`, otherwise one `/` separates them unless `base` already ends in
/// one or is empty.
pub open spec fn posix_join(base: Seq<char>, rest: Seq<char>) -> Seq<char> {
    if rest.len() > 0 && rest[0] == '/' {
        rest
    } else if base.len() == 0 {
        rest
    } else if base.last() == '/' {
        base + rest
    } else {
        base + seq!['/'] + rest
    }
}

/// `path` with a leading `~` standing for `home`: `~` alone becomes the
/// home directory, `~/rest` becomes `rest` under it; anything else, or no
/// known home, leaves the path as it is.
pub open spec fn expand_tilde_spec(path: Seq<char>, home: Option<Seq<char>>) -> Seq<char> {
    if path == seq!['~'] {
        match home {
            Some(h) => h,
            None => path,
        }
    } else if starts_with(path, seq!['~', '/']) {
        match home {
            Some(h) => posix_join(h, path.skip(2)),
            None => path,
        }
    } else {
        path
    }
}

/// A `-f` or `--format` flag.
pub open spec fn is_format_flag(t: Seq<char>) -> bool {
    t == "-f"@ || t == "--format"@
}

/// The tokens with every `-f`/`--format` flag and the value after it removed.
pub open spec fn strip_format(ts: Seq<Seq<char>>) -> Seq<Seq<char>>
    decreases ts.len(),
{
    if ts.len() == 0 {
        seq![]
    } else if is_format_flag(ts[0]) {
        if ts.len() >= 2 {
            strip_format(ts.skip(2))
        } else {
            seq![]
        }
    } else {
        seq![ts[0]] + strip_format(ts.skip(1))
    }
}

/// The selector for a picked format: a video-only stream gets the best audio
/// paired in, falling back to the stream alone.
pub open spec fn chosen_selector(id: Seq<char>, video_only: bool) -> Seq<char> {
    if video_only {
        id + "+bestaudio/"@ + id
    } else {
        id
    }
}

/// The arguments a picked format turns the tokens into.
pub open spec fn chosen_args(ts: Seq<Seq<char>>, id: Seq<char>, video_only: bool) -> Seq<Seq<char>> {
    strip_format(ts) + seq!["-f"@, chosen_selector(id, video_only)]
}

/// `--proxy p` when a proxy with content is given, nothing otherwise.
pub open spec fn proxy_args(proxy: Option<Seq<char>>) -> Seq<Seq<char>> {
    match proxy {
        Some(p) => if !is_blank(p) {
            seq!["--proxy"@, p]
        } else {
            seq![]
        },
        None => seq![],
    }
}

/// The arguments of a metadata-only probe.
pub open spec fn probe_args(ts: Seq<Seq<char>>, proxy: Option<Seq<char>>, url: Seq<char>) -> Seq<
    Seq<char>,
> {
    strip_format(ts) + seq!["-j"@, "--no-color"@, "--ignore-no-formats-error"@] + proxy_args(proxy)
        + seq![url]
}

/// The tokens after a format-selection mode has been applied.
pub open spec fn mode_tokens(ts: Seq<Seq<char>>, mode: Seq<char>) -> Seq<Seq<char>> {
    if mode == "raw"@ || mode == "chooseFormat"@ {
        ts
    } else if mode == "bestVideo"@ {
        strip_format(ts) + seq!["-f"@, "bestvideo+bestaudio/best"@]
    } else if mode == "bestAudio"@ {
        strip_format(ts) + seq!["-f"@, "bestaudio/best"@, "-x"@]
    } else {
        strip_format(ts)
    }
}

/// What `apply_mode` returns for a Parameters text and a mode.
pub open spec fn apply_mode_spec(parameters: Seq<char>, mode: Seq<char>) -> Result<
    Seq<Seq<char>>,
    Seq<char>,
> {
    match shell_split(parameters) {
        Some(ts) => Ok(mode_tokens(ts, mode)),
        None => Err(PARSE_ERROR@),
    }
}

/// The arguments of a real download writing to the output template `out`.
pub open spec fn download_args(
    parameters: Seq<Seq<char>>,
    ffmpeg_path: Option<Seq<char>>,
    proxy: Option<Seq<char>>,
    out: Seq<char>,
    url: Seq<char>,
) -> Seq<Seq<char>> {
    parameters + seq![
        "--newline"@,
        "--no-color"@,
        "--progress-template"@,
        PROGRESS_TEMPLATE@,
        "--no-quiet"@,
        "--print"@,
        PRINT_PATH_TEMPLATE@,
        "--print"@,
        PRINT_EXTRACTOR_TEMPLATE@,
    ] + match ffmpeg_path {
        Some(f) => seq!["--ffmpeg-location"@, f],
        None => seq![],
    } + proxy_args(proxy) + seq!["-o"@, out, url]
}

/// The character view of an optional string.
pub open spec fn opt_text(o: Option<String>) -> Option<Seq<char>> {
    match o {
        Some(s) => Some(s@),
        None => None,
    }
}

// ---------------------------------------------------------------------------
// Implementation

/// `posix_join` over strings.
pub fn join_posix(base: &str, rest: &str) -> (out: String)
    ensures
        out@ == posix_join(base@, rest@),
{
    let b = chars_of(base);
    let r = chars_of(rest);
    let mut out: Vec<char> = Vec::new();
    if r.len() > 0 && r[0] == '/' {
        crate::text::push_all(&mut out, &r);
    } else if b.len() == 0 {
        crate::text::push_all(&mut out, &r);
    } else if b[b.len() - 1] == '/' {
        crate::text::push_all(&mut out, &b);
        crate::text::push_all(&mut out, &r);
    } else {
        crate::text::push_all(&mut out, &b);
        out.push('/');
        crate::text::push_all(&mut out, &r);
    }
    assert(out@ =~= posix_join(base@, rest@));
    string_from(out.as_slice())
}

/// Expands a leading `~` against a known home directory (see `expand_tilde_spec`).
pub fn expand_tilde_with(path: &str, home: Option<String>) -> (out: String)
    ensures
        out@ == expand_tilde_spec(path@, opt_text(home)),
{
    if str_eq(path, "~") {
        proof {
            reveal_strlit("~");
        }
        assert("~"@ =~= seq!['~']);
        assert(path@ =~= seq!['~']);
        match home {
            Some(h) => h,
            None => String::from_str(path),
        }
    } else if str_starts_with(path, "~/") {
        proof {
            reveal_strlit("~/");
        }
        assert("~/"@ =~= seq!['~', '/']);
        match home {
            Some(h) => {
                let v = chars_of(path);
                let rest = crate::text::slice_chars(&v, 2, v.len());
                let rest_s = string_from(rest.as_slice());
                assert(rest@ =~= path@.skip(2));
                join_posix(h.as_str(), rest_s.as_str())
            },
            None => String::from_str(path),
        }
    } else {
        proof {
            reveal_strlit("~");
            reveal_strlit("~/");
        }
        assert("~/"@ =~= seq!['~', '/']);
        assert("~"@ =~= seq!['~']);
        String::from_str(path)
    }
}

/// Expands a leading `~` to the user's home directory. yt-dlp is run without
/// a shell, so nothing else would expand it. The home directory comes from
/// the environment: the result is the expansion against whatever it was.
pub fn expand_tilde(path: &str) -> (out: String)
    ensures
        exists|home: Option<Seq<char>>| out@ == expand_tilde_spec(path@, home),
        !(path@ == seq!['~'] || starts_with(path@, seq!['~', '/'])) ==> out@ == path@,
{
    let home = home_dir();
    let out = expand_tilde_with(path, home);
    assert(out@ == expand_tilde_spec(path@, opt_text(home)));
    out
}

/// Tokenizes the raw Parameters text, failing loudly on an unbalanced quote
/// rather than silently dropping every flag.
pub fn parse_parameters(parameters: &str) -> (r: Result<Vec<String>, String>)
    ensures
        match r {
            Ok(v) => shell_split(parameters@) == Some(texts(v@)),
            Err(e) => shell_split(parameters@) is None && e@ == PARSE_ERROR@,
        },
{
    match split_words(parameters) {
        Some(v) => Ok(v),
        None => Err(String::from_str(PARSE_ERROR)),
    }
}

fn is_format_flag_token(t: &String) -> (r: bool)
    ensures
        r == is_format_flag(t@),
{
    str_eq(t.as_str(), "-f") || str_eq(t.as_str(), "--format")
}

/// Drops every `-f`/`--format` flag and its value.
pub fn strip_format_flag(tokens: &[String]) -> (out: Vec<String>)
    ensures
        texts(out@) == strip_format(texts(tokens@)),
{
    let ghost ts = texts(tokens@);
    let mut out: Vec<String> = Vec::new();
    let mut i: usize = 0;
    assert(ts.skip(0) =~= ts);
    assert(texts(out@) + strip_format(ts) =~= strip_format(ts));
    while i < tokens.len()
        invariant
            ts == texts(tokens@),
            ts.len() == tokens@.len(),
            i <= tokens@.len(),
            texts(out@) + strip_format(ts.skip(i as int)) == strip_format(ts),
        decreases tokens@.len() - i,
    {
        let ghost rest = ts.skip(i as int);
        assert(rest[0] == tokens@[i as int]@);
        if is_format_flag_token(&tokens[i]) {
            if i + 1 < tokens.len() {
                assert(rest.skip(2) =~= ts.skip(i + 2));
                i = i + 2;
            } else {
                assert(ts.skip(tokens@.len() as int) =~= Seq::<Seq<char>>::empty());
                i = tokens.len();
            }
        } else {
            let ghost before = texts(out@);
            push_text(&mut out, tokens[i].clone());
            assert(rest.skip(1) =~= ts.skip(i + 1));
            assert(texts(out@) + strip_format(ts.skip(i + 1)) =~= before + strip_format(rest));
            i = i + 1;
        }
    }
    assert(ts.skip(i as int) =~= Seq::<Seq<char>>::empty());
    assert(texts(out@) + Seq::<Seq<char>>::empty() =~= texts(out@));
    out
}

/// Applies one URL's picked format, replacing any selector already present.
pub fn apply_chosen_format(tokens: &[String], chosen: &ChosenFormat) -> (out: Vec<String>)
    ensures
        texts(out@) == chosen_args(texts(tokens@), chosen.format_id@, chosen.video_only),
{
    let mut args = strip_format_flag(tokens);
    let selector = if chosen.video_only {
        let mut s = chosen.format_id.clone();
        s.append("+bestaudio/");
        s.append(chosen.format_id.as_str());
        s
    } else {
        chosen.format_id.clone()
    };
    push_lit(&mut args, "-f");
    push_text(&mut args, selector);
    assert(texts(args@) =~= chosen_args(texts(tokens@), chosen.format_id@, chosen.video_only));
    args
}

fn push_proxy(args: &mut Vec<String>, proxy: Option<&str>)
    ensures
        texts(final(args)@) == texts(old(args)@) + proxy_args(
            match proxy {
                Some(p) => Some(p@),
                None => None,
            },
        ),
{
    match proxy {
        Some(p) => {
            if has_content(p) {
                push_lit(args, "--proxy");
                push_lit(args, p);
            }
        },
        None => {},
    }
    assert(texts(args@) =~= texts(old(args)@) + proxy_args(
        match proxy {
            Some(p) => Some(p@),
            None => None,
        },
    ));
}

/// Arguments for a metadata-only probe (`yt-dlp -j`), built from the same
/// parameters and proxy as a real download so the listed formats are the
/// ones a download can fetch.
pub fn build_probe_args(parameters: &[String], proxy: Option<&str>, url: &str) -> (out: Vec<String>)
    ensures
        texts(out@) == probe_args(
            texts(parameters@),
            match proxy {
                Some(p) => Some(p@),
                None => None,
            },
            url@,
        ),
{
    let mut args = strip_format_flag(parameters);
    push_lit(&mut args, "-j");
    push_lit(&mut args, "--no-color");
    push_lit(&mut args, "--ignore-no-formats-error");
    push_proxy(&mut args, proxy);
    push_lit(&mut args, url);
    assert(texts(args@) =~= probe_args(
        texts(parameters@),
        match proxy {
            Some(p) => Some(p@),
            None => None,
        },
        url@,
    ));
    args
}

/// Applies the format-selection mode to raw Parameters text. Every mode
/// tokenizes first, so malformed text is rejected whichever mode is active.
pub fn apply_mode(parameters: &str, mode: &str) -> (r: Result<Vec<String>, String>)
    ensures
        match r {
            Ok(v) => apply_mode_spec(parameters@, mode@) == Ok::<Seq<Seq<char>>, Seq<char>>(
                texts(v@),
            ),
            Err(e) => apply_mode_spec(parameters@, mode@) == Err::<Seq<Seq<char>>, Seq<char>>(
                e@,
            ),
        },
{
    let tokens = match parse_parameters(parameters) {
        Ok(t) => t,
        Err(e) => return Err(e),
    };
    let ghost ts = texts(tokens@);
    if str_eq(mode, "raw") || str_eq(mode, "chooseFormat") {
        return Ok(tokens);
    }
    let mut stripped = strip_format_flag(tokens.as_slice());
    if str_eq(mode, "bestVideo") {
        push_lit(&mut stripped, "-f");
        push_lit(&mut stripped, "bestvideo+bestaudio/best");
        assert(texts(stripped@) =~= mode_tokens(ts, mode@));
    } else if str_eq(mode, "bestAudio") {
        push_lit(&mut stripped, "-f");
        push_lit(&mut stripped, "bestaudio/best");
        push_lit(&mut stripped, "-x");
        assert(texts(stripped@) =~= mode_tokens(ts, mode@));
    }
    assert(texts(stripped@) == mode_tokens(ts, mode@));
    Ok(stripped)
}

/// `build_download_args` against a known home directory.
pub fn build_download_args_with(req: &DownloadRequest, home: Option<String>) -> (out: Vec<String>)
    ensures
        texts(out@) == download_args(
            texts(req.parameters@),
            opt_text(req.ffmpeg_path),
            opt_text(req.proxy),
            expand_tilde_spec(req.download_to@, opt_text(home)),
            req.url@,
        ),
{
    let out_path = expand_tilde_with(req.download_to.as_str(), home);
    download_args_for(req, out_path)
}

fn download_args_for(req: &DownloadRequest, out_path: String) -> (out: Vec<String>)
    ensures
        texts(out@) == download_args(
            texts(req.parameters@),
            opt_text(req.ffmpeg_path),
            opt_text(req.proxy),
            out_path@,
            req.url@,
        ),
{
    let mut args: Vec<String> = req.parameters.clone();
    assert(texts(args@) =~= texts(req.parameters@));
    push_lit(&mut args, "--newline");
    push_lit(&mut args, "--no-color");
    push_lit(&mut args, "--progress-template");
    push_lit(&mut args, PROGRESS_TEMPLATE);
    push_lit(&mut args, "--no-quiet");
    push_lit(&mut args, "--print");
    push_lit(&mut args, PRINT_PATH_TEMPLATE);
    push_lit(&mut args, "--print");
    push_lit(&mut args, PRINT_EXTRACTOR_TEMPLATE);
    match &req.ffmpeg_path {
        Some(f) => {
            push_lit(&mut args, "--ffmpeg-location");
            push_text(&mut args, f.clone());
        },
        None => {},
    }
    let proxy: Option<&str> = match &req.proxy {
        Some(p) => Some(p.as_str()),
        None => None,
    };
    push_proxy(&mut args, proxy);
    push_lit(&mut args, "-o");
    push_text(&mut args, out_path);
    push_text(&mut args, req.url.clone());
    assert(texts(args@) =~= download_args(
        texts(req.parameters@),
        opt_text(req.ffmpeg_path),
        opt_text(req.proxy),
        out_path@,
        req.url@,
    ));
    args
}

/// Builds the full argument list for a real download. `--newline` is
/// mandatory: progress is read line by line. The two `--print after_move:`
/// lines report the final path and the extractor; `--no-quiet` undoes the
/// quiet mode `--print` implies, so yt-dlp still reports an already
/// downloaded file. The `-o` value is the output
/// template with `~` expanded against the home directory found at run time.
pub fn build_download_args(req: &DownloadRequest) -> (out: Vec<String>)
    ensures
        exists|home: Option<Seq<char>>|
            texts(out@) == download_args(
                texts(req.parameters@),
                opt_text(req.ffmpeg_path),
                opt_text(req.proxy),
                expand_tilde_spec(req.download_to@, home),
                req.url@,
            ),
{
    let home = home_dir();
    build_download_args_with(req, home)
}


// ---------------------------------------------------------------------------
// Laws

/// Law: stripping leaves no `-f`/`--format` flag behind.
pub proof fn law_stripped_tokens_hold_no_format_flag(ts: Seq<Seq<char>>)
    ensures
        forall|i: int|
            0 <= i < strip_format(ts).len() ==> !is_format_flag(#[trigger] strip_format(ts)[i]),
    decreases ts.len(),
{
    if ts.len() > 0 {
        if is_format_flag(ts[0]) {
            if ts.len() >= 2 {
                law_stripped_tokens_hold_no_format_flag(ts.skip(2));
                assert(strip_format(ts) == strip_format(ts.skip(2)));
            } else {
                assert(strip_format(ts) == Seq::<Seq<char>>::empty());
            }
        } else {
            law_stripped_tokens_hold_no_format_flag(ts.skip(1));
            let r = strip_format(ts.skip(1));
            assert forall|i: int| 0 <= i < strip_format(ts).len() implies !is_format_flag(
                #[trigger] strip_format(ts)[i],
            ) by {
                if i > 0 {
                    assert(strip_format(ts)[i] == r[i - 1]);
                }
            }
        }
    }
}

/// Tokens without any format flag are left as they are.
proof fn lemma_strip_without_flags(ts: Seq<Seq<char>>)
    requires
        forall|i: int| 0 <= i < ts.len() ==> !is_format_flag(#[trigger] ts[i]),
    ensures
        strip_format(ts) == ts,
    decreases ts.len(),
{
    if ts.len() > 0 {
        assert(!is_format_flag(ts[0]));
        assert forall|i: int| 0 <= i < ts.len() - 1 implies !is_format_flag(
            #[trigger] ts.skip(1)[i],
        ) by {
            assert(ts.skip(1)[i] == ts[i + 1]);
        }
        lemma_strip_without_flags(ts.skip(1));
        assert(seq![ts[0]] + ts.skip(1) =~= ts);
    }
}

/// Law: stripping twice is stripping once.
pub proof fn law_strip_is_idempotent(ts: Seq<Seq<char>>)
    ensures
        strip_format(strip_format(ts)) == strip_format(ts),
{
    law_stripped_tokens_hold_no_format_flag(ts);
    lemma_strip_without_flags(strip_format(ts));
}

/// Law: "Best video" and "Best audio" replace any selector in the
/// Parameters: the result's only `-f` is the one the mode appends, followed
/// by the mode's selector.
pub proof fn law_best_modes_replace_the_selector(ts: Seq<Seq<char>>)
    ensures
        ({
            let v = mode_tokens(ts, "bestVideo"@);
            &&& v.len() >= 2
            &&& v[v.len() - 2] == "-f"@
            &&& v[v.len() - 1] == "bestvideo+bestaudio/best"@
            &&& forall|i: int| 0 <= i < v.len() - 2 ==> !is_format_flag(#[trigger] v[i])
        }),
        ({
            let a = mode_tokens(ts, "bestAudio"@);
            &&& a.len() >= 3
            &&& a[a.len() - 3] == "-f"@
            &&& a[a.len() - 2] == "bestaudio/best"@
            &&& a[a.len() - 1] == "-x"@
            &&& forall|i: int| 0 <= i < a.len() - 3 ==> !is_format_flag(#[trigger] a[i])
        }),
{
    reveal_strlit("raw");
    reveal_strlit("chooseFormat");
    reveal_strlit("bestVideo");
    reveal_strlit("bestAudio");
    assert("bestVideo"@ != "raw"@ && "bestVideo"@ != "chooseFormat"@ && "bestAudio"@
        != "raw"@ && "bestAudio"@ != "chooseFormat"@ && "bestAudio"@ != "bestVideo"@) by {
        assert("bestVideo"@[4] != "raw"@[0] || "bestVideo"@.len() != "raw"@.len());
        assert("bestVideo"@.len() != "chooseFormat"@.len());
        assert("bestAudio"@.len() != "raw"@.len());
        assert("bestAudio"@.len() != "chooseFormat"@.len());
        assert("bestAudio"@[4] != "bestVideo"@[4]);
    }
    law_stripped_tokens_hold_no_format_flag(ts);
    let s = strip_format(ts);
    let v = mode_tokens(ts, "bestVideo"@);
    assert forall|i: int| 0 <= i < v.len() - 2 implies !is_format_flag(#[trigger] v[i]) by {
        assert(v[i] == s[i]);
    }
    let a = mode_tokens(ts, "bestAudio"@);
    assert forall|i: int| 0 <= i < a.len() - 3 implies !is_format_flag(#[trigger] a[i]) by {
        assert(a[i] == s[i]);
    }
}

/// Law: a picked format replaces any selector in the tokens: the result's
/// only `-f` is the appended one, followed by the picked selector.
pub proof fn law_chosen_format_replaces_the_selector(
    ts: Seq<Seq<char>>,
    id: Seq<char>,
    video_only: bool,
)
    ensures
        ({
            let c = chosen_args(ts, id, video_only);
            &&& c.len() >= 2
            &&& c[c.len() - 2] == "-f"@
            &&& c[c.len() - 1] == chosen_selector(id, video_only)
            &&& forall|i: int| 0 <= i < c.len() - 2 ==> !is_format_flag(#[trigger] c[i])
        }),
{
    law_stripped_tokens_hold_no_format_flag(ts);
    let s = strip_format(ts);
    let c = chosen_args(ts, id, video_only);
    assert forall|i: int| 0 <= i < c.len() - 2 implies !is_format_flag(#[trigger] c[i]) by {
        assert(c[i] == s[i]);
    }
}

/// Law: malformed Parameters are refused in every mode, and well-formed ones
/// are accepted in every mode — validation does not depend on the toggle.
pub proof fn law_validation_is_independent_of_mode(parameters: Seq<char>, mode: Seq<char>)
    ensures
        shell_split(parameters) is None ==> apply_mode_spec(parameters, mode) == Err::<
            Seq<Seq<char>>,
            Seq<char>,
        >(PARSE_ERROR@),
        shell_split(parameters) is Some ==> apply_mode_spec(parameters, mode) is Ok,
{
}

/// Law: "raw" and "chooseFormat" pass the tokenized Parameters through
/// unchanged; a picked format is applied per URL later.
pub proof fn law_pass_through_modes_keep_tokens(parameters: Seq<char>)
    ensures
        shell_split(parameters) matches Some(ts) ==> apply_mode_spec(parameters, "raw"@) == Ok::<
            Seq<Seq<char>>,
            Seq<char>,
        >(ts) && apply_mode_spec(parameters, "chooseFormat"@) == Ok::<Seq<Seq<char>>, Seq<char>>(
            ts,
        ),
{
}

/// Law: a proxy that trims to nothing is never passed to yt-dlp; any other
/// proxy is passed as given, behind `--proxy`.
pub proof fn law_blank_proxy_is_omitted(p: Seq<char>)
    ensures
        trim(p).len() == 0 ==> proxy_args(Some(p)) == Seq::<Seq<char>>::empty(),
        trim(p).len() != 0 ==> proxy_args(Some(p)) == seq!["--proxy"@, p],
{
    lemma_trim_empty_iff_blank(p);
}

} // verus!
