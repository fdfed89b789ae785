//! Locating the yt-dlp and ffmpeg binaries and reading their version output.
//!
//! A bundled app launched from a desktop shell does not inherit the user's
//! shell `PATH`, so common install locations are probed before falling back
//! to the bare name.

use vstd::prelude::*;

use crate::args::{home_dir, join_posix, opt_text, posix_join, push_lit, push_text};
use crate::config::AppConfig;
use crate::text::{
    chars_of, first_line, first_word, slice_chars, starts_with, str_eq, str_first_word,
    str_lines, str_starts_with, str_trim, string_from, texts, trim,
};

verus! {

/// The outcome of checking one binary.
pub struct BinaryCheck {
    pub found: bool,
    pub path: Option<String>,
    pub version: Option<String>,
    pub error: Option<String>,
}

/// The version flag a binary understands.
pub open spec fn version_flag_spec(name: Seq<char>) -> Seq<char> {
    if name == "ffmpeg"@ {
        "-version"@
    } else {
        "--version"@
    }
}

/// ffmpeg's version flag is `-version` (single dash); yt-dlp and most other
/// tools use `--version`.
pub fn version_flag(name: &str) -> (f: &'static str)
    ensures
        f@ == version_flag_spec(name@),
{
    if str_eq(name, "ffmpeg") {
        "-version"
    } else {
        "--version"
    }
}

/// ffmpeg's banner reduced to its version token; anything else as it is.
pub open spec fn short_version_spec(raw: Seq<char>) -> Seq<char> {
    if starts_with(raw, "ffmpeg version "@) {
        match first_word(raw.skip(15)) {
            Some(w) => w,
            None => raw,
        }
    } else {
        raw
    }
}

/// Reduces ffmpeg's version banner (`ffmpeg version 8.1 Copyright ...`) to
/// the version token; anything unrecognized passes through as it is.
pub fn short_version(raw: &str) -> (out: String)
    ensures
        out@ == short_version_spec(raw@),
{
    if str_starts_with(raw, "ffmpeg version ") {
        proof {
            reveal_strlit("ffmpeg version ");
        }
        let v = chars_of(raw);
        let rest = slice_chars(&v, 15, v.len());
        let rest_s = string_from(rest.as_slice());
        assert(rest@ =~= raw@.skip(15));
        match str_first_word(rest_s.as_str()) {
            Some(w) => w,
            None => String::from_str(raw),
        }
    } else {
        String::from_str(raw)
    }
}

/// The version text shown for a successful `--version` run: the first line
/// of stdout (or of stderr when stdout is empty, as with ffmpeg), trimmed
/// and reduced by `short_version`.
pub open spec fn version_from_output_spec(stdout: Seq<char>, stderr: Seq<char>) -> Seq<char> {
    let combined = if stdout.len() > 0 {
        stdout
    } else {
        stderr
    };
    short_version_spec(trim(first_line(combined)))
}

/// The version text for a successful run's output.
pub fn version_from_output(stdout: &str, stderr: &str) -> (out: String)
    ensures
        out@ == version_from_output_spec(stdout@, stderr@),
{
    let combined = if stdout.unicode_len() > 0 {
        stdout
    } else {
        stderr
    };
    let ls = str_lines(combined);
    let first = if ls.len() > 0 {
        assert(texts(ls@)[0] == ls@[0]@);
        ls[0].clone()
    } else {
        String::new()
    };
    let trimmed = str_trim(first.as_str());
    short_version(trimmed.as_str())
}

/// The result of a self-update run: its combined output, trimmed, as the
/// success or the error.
pub fn update_outcome(success: bool, combined: &str) -> (r: Result<String, String>)
    ensures
        match r {
            Ok(t) => success && t@ == trim(combined@),
            Err(t) => !success && t@ == trim(combined@),
        },
{
    let t = str_trim(combined);
    if success {
        Ok(t)
    } else {
        Err(t)
    }
}

/// `prefix` followed by `name`.
fn prefixed(prefix: &str, name: &str) -> (out: String)
    ensures
        out@ == prefix@ + name@,
{
    let mut s = String::from_str(prefix);
    s.append(name);
    s
}

/// The install locations probed for a binary, in order.
pub open spec fn candidates_spec(name: Seq<char>, home: Option<Seq<char>>) -> Seq<Seq<char>> {
    let local: Seq<Seq<char>> = match home {
        Some(h) => seq![posix_join(posix_join(h, ".local/bin"@), name)],
        None => seq![],
    };
    seq!["/opt/homebrew/bin/"@ + name, "/usr/local/bin/"@ + name] + local + seq![
        "/usr/bin/"@ + name,
    ]
}

/// The places a binary is looked for, in order: a saved or given override
/// first, then the install locations.
pub open spec fn search_order_spec(
    name: Seq<char>,
    override_path: Option<Seq<char>>,
    home: Option<Seq<char>>,
) -> Seq<Seq<char>> {
    let first: Seq<Seq<char>> = match override_path {
        Some(p) => seq![p],
        None => seq![],
    };
    first + candidates_spec(name, home)
}

/// The character view of an optional borrowed string.
pub open spec fn opt_str(o: Option<&str>) -> Option<Seq<char>> {
    match o {
        Some(p) => Some(p@),
        None => None,
    }
}

/// The search order for a binary against a known home directory.
pub fn search_order_with(name: &str, override_path: Option<&str>, home: Option<String>) -> (out:
    Vec<String>)
    ensures
        texts(out@) == search_order_spec(
            name@,
            match override_path {
                Some(p) => Some(p@),
                None => None,
            },
            opt_text(home),
        ),
{
    let mut out: Vec<String> = Vec::new();
    match override_path {
        Some(p) => push_lit(&mut out, p),
        None => {},
    }
    push_text(&mut out, prefixed("/opt/homebrew/bin/", name));
    push_text(&mut out, prefixed("/usr/local/bin/", name));
    match &home {
        Some(h) => {
            let local = join_posix(h.as_str(), ".local/bin");
            push_text(&mut out, join_posix(local.as_str(), name));
        },
        None => {},
    }
    push_text(&mut out, prefixed("/usr/bin/", name));
    assert(texts(out@) =~= search_order_spec(
        name@,
        match override_path {
            Some(p) => Some(p@),
            None => None,
        },
        opt_text(home),
    ));
    out
}

/// The search order for a binary; the home directory comes from the
/// environment.
pub fn search_order(name: &str, override_path: Option<&str>) -> (out: Vec<String>)
    ensures
        exists|home: Option<Seq<char>>|
            texts(out@) == #[trigger] search_order_spec(name@, opt_str(override_path), home),
{
    let home = home_dir();
    search_order_with(name, override_path, home)
}

/// Law: with a home directory `h`, the search probes `h/.local/bin/<name>`
/// (where pip `--user` and pipx install) right after `/usr/local/bin/<name>`
/// and right before `/usr/bin/<name>`; without one, it goes straight from
/// `/usr/local/bin` to `/usr/bin`.
pub proof fn law_home_install_is_probed(
    name: Seq<char>,
    override_path: Option<Seq<char>>,
    h: Seq<char>,
)
    ensures
        ({
            let o: int = if override_path is Some { 1 } else { 0 };
            let with = search_order_spec(name, override_path, Some(h));
            let without = search_order_spec(name, override_path, None);
            &&& with.len() == o + 4
            &&& with[o + 1] == "/usr/local/bin/"@ + name
            &&& with[o + 2] == posix_join(posix_join(h, ".local/bin"@), name)
            &&& with[o + 3] == "/usr/bin/"@ + name
            &&& without.len() == o + 3
            &&& without[o + 1] == "/usr/local/bin/"@ + name
            &&& without[o + 2] == "/usr/bin/"@ + name
        }),
{
}

/// The first path that exists, or the bare name for the process's own
/// `PATH` search when none does.
pub open spec fn first_existing_spec(paths: Seq<Seq<char>>, exists: Seq<bool>, name: Seq<char>) -> Seq<
    char,
>
    decreases paths.len(),
{
    if paths.len() == 0 || exists.len() == 0 {
        name
    } else if exists[0] {
        paths[0]
    } else {
        first_existing_spec(paths.drop_first(), exists.drop_first(), name)
    }
}

/// Picks the first path reported to exist (`exists[i]` for `paths[i]`), or
/// the bare name.
pub fn first_existing(paths: &Vec<String>, exists: &Vec<bool>, name: &str) -> (out: String)
    requires
        paths@.len() == exists@.len(),
    ensures
        out@ == first_existing_spec(texts(paths@), exists@, name@),
{
    let ghost ps = texts(paths@);
    let mut i: usize = 0;
    assert(ps.skip(0) =~= ps);
    assert(exists@.skip(0) =~= exists@);
    while i < paths.len()
        invariant
            ps == texts(paths@),
            paths@.len() == exists@.len(),
            i <= paths@.len(),
            first_existing_spec(ps.skip(i as int), exists@.skip(i as int), name@)
                == first_existing_spec(ps, exists@, name@),
        decreases paths@.len() - i,
    {
        assert(ps.skip(i as int).drop_first() =~= ps.skip(i + 1));
        assert(exists@.skip(i as int).drop_first() =~= exists@.skip(i + 1));
        if exists[i] {
            assert(ps.skip(i as int)[0] == paths@[i as int]@);
            return paths[i].clone();
        }
        i = i + 1;
    }
    String::from_str(name)
}

/// The saved override for a binary.
pub open spec fn override_spec(name: Seq<char>, config: AppConfig) -> Option<Seq<char>> {
    if name == "yt-dlp"@ {
        opt_text(config.ytdlp_path)
    } else if name == "ffmpeg"@ {
        opt_text(config.ffmpeg_path)
    } else {
        None
    }
}

/// The user's saved path override for `yt-dlp` or `ffmpeg`; none for any
/// other binary.
pub fn override_for(name: &str, config: &AppConfig) -> (r: Option<String>)
    ensures
        opt_text(r) == override_spec(name@, *config),
{
    if str_eq(name, "yt-dlp") {
        config.ytdlp_path.clone()
    } else if str_eq(name, "ffmpeg") {
        config.ffmpeg_path.clone()
    } else {
        None
    }
}

} // verus!
