//! Resolution of a user-authored output template (`download_to`) into the
//! value passed to yt-dlp's `-o`.
//!
//! - `{date:YYYY-MM-DD}` becomes today's (UTC) date when the job is created;
//! - `{id:NNN}` (any run of `N`s) becomes the template's sequence number,
//!   zero-padded to the number of `N`s;
//! - `{id:guid}` becomes a fresh random uuid;
//! - `{original_filename}` and everything after it become yt-dlp's own
//!   `%(title)s`, and `.%(ext)s` is always appended, token or not.

use vstd::prelude::*;

use crate::args::{expand_tilde_spec, expand_tilde_with, home_dir, opt_text};
use crate::clock::{is_date_text, today_text, utc_date_text, DATE_LIMIT_SECS};
use crate::ids::{is_v4_uuid_text, new_uuid};
use crate::text::{
    chars_of, contains, decimal, find, find_chars, lemma_find, occurs_at, replace_all,
    slice_chars, split_once, str_contains, str_replace_all, string_from, zero_padded,
    zero_padded_decimal,
};

verus! {

/// Every character is `N`.
pub open spec fn all_n(s: Seq<char>) -> bool {
    forall|i: int| 0 <= i < s.len() ==> s[i] == 'N'
}

/// The run of `N`s of a well-formed `{id:N…}` token opening at `k`: the
/// text between `{id:` and the next `}`, when it is a non-empty run of `N`s.
pub open spec fn token_at(s: Seq<char>, k: int) -> Option<Seq<char>> {
    if occurs_at(s, "{id:N"@, k) {
        match find(s.skip(k + 4), seq!['}']) {
            Some(e) => {
                let inner = s.skip(k + 4).take(e);
                if inner.len() > 0 && all_n(inner) {
                    Some(inner)
                } else {
                    None
                }
            },
            None => None,
        }
    } else {
        None
    }
}

/// Where the first well-formed `{id:N…}` token at or after `i` opens.
pub open spec fn first_token_from(s: Seq<char>, i: int) -> Option<int>
    decreases s.len() - i,
{
    if i < 0 || i >= s.len() {
        None
    } else if token_at(s, i) is Some {
        Some(i)
    } else {
        first_token_from(s, i + 1)
    }
}

/// `s` with its first well-formed `{id:N…}` token replaced by `seq`,
/// zero-padded to the number of `N`s; a malformed `{id:N…` before it is
/// passed over, and the text is unchanged when there is no such token.
pub open spec fn seq_token_replaced(s: Seq<char>, seq: nat) -> Seq<char> {
    match first_token_from(s, 0) {
        Some(k) => {
            let inner = token_at(s, k)->0;
            s.take(k) + zero_padded(decimal(seq), inner.len()) + s.skip(k + 5 + inner.len())
        },
        None => s,
    }
}

/// The part of the template before `{original_filename}`.
pub open spec fn output_prefix_spec(raw: Seq<char>) -> Seq<char> {
    match split_once(raw, "{original_filename}"@) {
        Some((before, _after)) => before,
        None => raw,
    }
}

/// The prefix with `{date:YYYY-MM-DD}` replaced by `today`.
pub open spec fn date_resolved(raw: Seq<char>, today: Seq<char>) -> Seq<char> {
    replace_all(output_prefix_spec(raw), "{date:YYYY-MM-DD}"@, today)
}

/// The date-resolved prefix with its sequence token resolved, when a number
/// was taken for it.
pub open spec fn seq_resolved(resolved: Seq<char>, seq: Option<u32>) -> Seq<char> {
    match seq {
        Some(n) => if contains(resolved, "{id:N"@) {
            seq_token_replaced(resolved, n as nat)
        } else {
            resolved
        },
        None => resolved,
    }
}

/// yt-dlp's placeholders after the prefix: `%(title)s` stands where the
/// template had `{original_filename}`, and `.%(ext)s` always follows.
pub open spec fn placeholder_suffix(raw: Seq<char>) -> Seq<char> {
    if contains(raw, "{original_filename}"@) {
        "%(title)s.%(ext)s"@
    } else {
        ".%(ext)s"@
    }
}

/// The rest of the resolution of the template `raw` once the date is in
/// (`resolved`): the sequence number (when one was taken), the uuid, `~`,
/// escaping of `%`, and yt-dlp's placeholders.
pub open spec fn finish_spec(
    raw: Seq<char>,
    resolved: Seq<char>,
    seq: Option<u32>,
    guid: Seq<char>,
    home: Option<Seq<char>>,
) -> Seq<char> {
    let r1 = seq_resolved(resolved, seq);
    let r2 = if contains(r1, "{id:guid}"@) {
        replace_all(r1, "{id:guid}"@, guid)
    } else {
        r1
    };
    replace_all(expand_tilde_spec(r2, home), "%"@, "%%"@) + placeholder_suffix(raw)
}

fn all_n_chars(v: &Vec<char>) -> (r: bool)
    ensures
        r == all_n(v@),
{
    let mut i: usize = 0;
    while i < v.len()
        invariant
            i <= v@.len(),
            forall|j: int| 0 <= j < i ==> v@[j] == 'N',
        decreases v@.len() - i,
    {
        if v[i] != 'N' {
            return false;
        }
        i = i + 1;
    }
    true
}

/// Whether a well-formed token opens at `k`, giving where its `}` stands.
fn token_close(sv: &Vec<char>, open: &Vec<char>, k: usize) -> (r: Option<usize>)
    requires
        open@ == "{id:N"@,
        k < sv@.len(),
    ensures
        match r {
            Some(e) => token_at(sv@, k as int) is Some && e == k + 4 + token_at(
                sv@,
                k as int,
            )->0.len() && e < sv@.len(),
            None => token_at(sv@, k as int) is None,
        },
{
    if !crate::text::matches_at(sv, open, k) {
        return None;
    }
    proof {
        reveal_strlit("{id:N");
    }
    let n = sv.len();
    assert(k + 5 <= n);
    let ghost after = sv@.skip(k + 4);
    match crate::text::next_index_of(sv, '}', k + 4) {
        Some(e) => {
            let inner = slice_chars(sv, k + 4, e);
            assert(inner@ =~= after.take(e - (k + 4)));
            if inner.len() > 0 && all_n_chars(&inner) {
                Some(e)
            } else {
                None
            }
        },
        None => None,
    }
}

/// Replaces the first well-formed `{id:NNN...}` token (the run of `N`s sets
/// the zero-pad width) with `seq`, zero-padded to that width.
pub fn replace_seq_token(s: &str, seq: u32) -> (out: String)
    ensures
        out@ == seq_token_replaced(s@, seq as nat),
{
    let sv = chars_of(s);
    let open = chars_of("{id:N");
    let mut k: usize = 0;
    while k < sv.len()
        invariant
            sv@ == s@,
            open@ == "{id:N"@,
            k <= sv@.len(),
            first_token_from(s@, k as int) == first_token_from(s@, 0),
        decreases sv@.len() - k,
    {
        match token_close(&sv, &open, k) {
            Some(e) => {
                let ghost inner = token_at(s@, k as int)->0;
                let before = slice_chars(&sv, 0, k);
                let rest = slice_chars(&sv, e + 1, sv.len());
                let mut out = string_from(before.as_slice());
                let digits = zero_padded_decimal(seq as u64, e - (k + 4));
                out.append(digits.as_str());
                let tail = string_from(rest.as_slice());
                out.append(tail.as_str());
                assert(before@ =~= s@.take(k as int));
                assert(rest@ =~= s@.skip(k + 5 + inner.len()));
                return out;
            },
            None => {},
        }
        k = k + 1;
    }
    String::from_str(s)
}

/// The part of the template before `{original_filename}`.
pub fn output_prefix(raw: &str) -> (out: String)
    ensures
        out@ == output_prefix_spec(raw@),
{
    let rv = chars_of(raw);
    let pv = chars_of("{original_filename}");
    proof {
        lemma_find(rv@, pv@);
    }
    match find_chars(&rv, &pv) {
        Some(k) => {
            let before = slice_chars(&rv, 0, k);
            assert(before@ =~= rv@.take(k as int));
            string_from(before.as_slice())
        },
        None => String::from_str(raw),
    }
}

/// The template prefix with the date token resolved to `today`.
pub fn resolve_date(raw: &str, today: &str) -> (out: String)
    ensures
        out@ == date_resolved(raw@, today@),
{
    let prefix = output_prefix(raw);
    str_replace_all(prefix.as_str(), "{date:YYYY-MM-DD}", today)
}

/// The template prefix with the date token resolved to today's date (UTC;
/// see `clock::today_text`). The date comes from the clock: the result is
/// the resolution against a date-shaped text, whichever date that was.
pub fn resolve_prefix(raw: &str) -> (out: String)
    ensures
        exists|today: Seq<char>| is_date_text(today) && out@ == date_resolved(raw@, today),
        exists|secs: u64|
            secs <= DATE_LIMIT_SECS && is_date_text(utc_date_text(secs)) && out@ == date_resolved(
                raw@,
                utc_date_text(secs),
            ),
{
    let today = today_text();
    resolve_date(raw, today.as_str())
}

/// Whether a resolved prefix asks for a sequence number, so that one has to
/// be consumed from the template.
pub fn needs_seq(resolved: &str) -> (r: bool)
    ensures
        r == contains(resolved@, "{id:N"@),
{
    str_contains(resolved, "{id:N")
}

/// The sequence step of the resolution (see `seq_resolved`).
fn apply_seq(resolved: &str, seq: Option<u32>) -> (out: String)
    ensures
        out@ == seq_resolved(resolved@, seq),
{
    match seq {
        Some(n) => if str_contains(resolved, "{id:N") {
            replace_seq_token(resolved, n)
        } else {
            String::from_str(resolved)
        },
        None => String::from_str(resolved),
    }
}

/// Finishes the resolution of the template `raw`, whose date-resolved prefix
/// is `resolved`, with a known uuid and home directory (see `finish_spec`).
pub fn finish_output_path_with(
    raw: &str,
    resolved: &str,
    seq: Option<u32>,
    guid: &str,
    home: Option<String>,
) -> (out: String)
    ensures
        out@ == finish_spec(raw@, resolved@, seq, guid@, opt_text(home)),
{
    let r1 = apply_seq(resolved, seq);
    let r2 = if str_contains(r1.as_str(), "{id:guid}") {
        str_replace_all(r1.as_str(), "{id:guid}", guid)
    } else {
        r1
    };
    let expanded = expand_tilde_with(r2.as_str(), home);
    let mut escaped = str_replace_all(expanded.as_str(), "%", "%%");
    if str_contains(raw, "{original_filename}") {
        escaped.append("%(title)s.%(ext)s");
    } else {
        escaped.append(".%(ext)s");
    }
    escaped
}

/// Finishes the resolution of the template `raw` from its date-resolved
/// prefix: `seq` is the number consumed for an `{id:N…}` token, if the
/// prefix asked for one. A fresh uuid is drawn only when an `{id:guid}`
/// token is left to fill, and `~` is expanded against the home directory
/// found at run time. None only where a uuid was needed and the random
/// source failed.
pub fn finish_output_path(raw: &str, resolved: &str, seq: Option<u32>) -> (r: Option<String>)
    ensures
        match r {
            Some(out) => exists|guid: Seq<char>, home: Option<Seq<char>>|
                (contains(seq_resolved(resolved@, seq), "{id:guid}"@) ==> is_v4_uuid_text(guid))
                    && out@ == finish_spec(raw@, resolved@, seq, guid, home),
            None => contains(seq_resolved(resolved@, seq), "{id:guid}"@),
        },
{
    let r1 = apply_seq(resolved, seq);
    let guid = if str_contains(r1.as_str(), "{id:guid}") {
        match new_uuid() {
            Some(g) => g,
            None => return None,
        }
    } else {
        String::new()
    };
    let home = home_dir();
    Some(finish_output_path_with(raw, resolved, seq, guid.as_str(), home))
}

/// Law: a text without `{id:N` is left untouched by sequence replacement.
pub proof fn law_untouched_without_token(s: Seq<char>, seq: nat)
    ensures
        !contains(s, "{id:N"@) ==> seq_token_replaced(s, seq) == s,
{
    if !contains(s, "{id:N"@) {
        lemma_find(s, "{id:N"@);
        lemma_no_token_from(s, 0);
    }
}

proof fn lemma_no_token_from(s: Seq<char>, i: int)
    requires
        forall|j: int| !occurs_at(s, "{id:N"@, j),
    ensures
        first_token_from(s, i) is None,
    decreases s.len() - i,
{
    if 0 <= i < s.len() {
        lemma_no_token_from(s, i + 1);
    }
}

/// Law: the sequence number is written with at least as many digits as the
/// token has `N`s, zero-padded on the left, and never truncated.
pub proof fn law_padding_width(seq: nat, width: nat)
    ensures
        zero_padded(decimal(seq), width).len() == if decimal(seq).len() >= width {
            decimal(seq).len()
        } else {
            width
        },
        zero_padded(decimal(seq), width).skip(
            zero_padded(decimal(seq), width).len() - decimal(seq).len(),
        ) == decimal(seq),
{
    let d = decimal(seq);
    let z = zero_padded(d, width);
    assert(z.skip(z.len() - d.len()) =~= d);
}

/// Law: nothing from `{original_filename}` on reaches the resolved prefix.
pub proof fn law_prefix_drops_filename_token(raw: Seq<char>)
    ensures
        !contains(output_prefix_spec(raw), "{original_filename}"@),
{
    let p = "{original_filename}"@;
    reveal_strlit("{original_filename}");
    assert(p.len() > 0);
    lemma_find(raw, p);
    let pre = output_prefix_spec(raw);
    lemma_find(pre, p);
    if contains(pre, p) && contains(raw, p) {
        let j = find(pre, p)->0;
        let k = find(raw, p)->0;
        assert(occurs_at(pre, p, j));
        assert(pre == raw.take(k));
        assert(pre.subrange(j, j + p.len()) =~= raw.subrange(j, j + p.len()));
        assert(occurs_at(raw, p, j));
    }
}

/// Law: the resolved value always ends with yt-dlp's `.%(ext)s` slot, and,
/// when the template had `{original_filename}`, with `%(title)s.%(ext)s`.
pub proof fn law_output_ends_with_placeholders(
    raw: Seq<char>,
    resolved: Seq<char>,
    seq: Option<u32>,
    guid: Seq<char>,
    home: Option<Seq<char>>,
)
    ensures
        ({
            let out = finish_spec(raw, resolved, seq, guid, home);
            let ext = ".%(ext)s"@;
            let titled = "%(title)s.%(ext)s"@;
            &&& out.len() >= ext.len() && out.skip(out.len() - ext.len()) == ext
            &&& contains(raw, "{original_filename}"@) ==> out.len() >= titled.len() && out.skip(
                out.len() - titled.len(),
            ) == titled
        }),
{
    let out = finish_spec(raw, resolved, seq, guid, home);
    let ext = ".%(ext)s"@;
    let titled = "%(title)s.%(ext)s"@;
    reveal_strlit(".%(ext)s");
    reveal_strlit("%(title)s.%(ext)s");
    if contains(raw, "{original_filename}"@) {
        assert(out.skip(out.len() - titled.len()) =~= titled);
        assert(out.skip(out.len() - ext.len()) =~= ext);
    } else {
        assert(out.skip(out.len() - ext.len()) =~= ext);
    }
}

} // verus!
