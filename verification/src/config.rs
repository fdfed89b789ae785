//! Application settings and their stored form: one text value per key, so a
//! new setting needs no migration and one bad value cannot take the rest down.

use vstd::prelude::*;

use crate::args::opt_text;
use crate::text::{chars_of, decimal, decimal_string, digit_char};

verus! {

/// User settings from the Config page.
pub struct AppConfig {
    pub ytdlp_path: Option<String>,
    pub ffmpeg_path: Option<String>,
    pub proxy: String,
    pub concurrency: u32,
}

/// The default number of downloads that run at once.
pub const DEFAULT_CONCURRENCY: u32 = 3;

impl Default for AppConfig {
    fn default() -> (c: Self)
        ensures
            c.ytdlp_path is None,
            c.ffmpeg_path is None,
            c.proxy@ == Seq::<char>::empty(),
            c.concurrency == 3,
    {
        AppConfig {
            ytdlp_path: None,
            ffmpeg_path: None,
            proxy: String::new(),
            concurrency: DEFAULT_CONCURRENCY,
        }
    }
}

/// The key under which each setting is stored.
pub const KEY_YTDLP_PATH: &'static str = "ytdlpPath";

pub const KEY_FFMPEG_PATH: &'static str = "ffmpegPath";

pub const KEY_PROXY: &'static str = "proxy";

pub const KEY_CONCURRENCY: &'static str = "concurrency";

/// The four values written for a configuration, one per key.
pub struct StoredConfig {
    pub ytdlp_path: String,
    pub ffmpeg_path: String,
    pub proxy: String,
    pub concurrency: String,
}

/// The settings as plain values.
pub open spec fn config_view(c: AppConfig) -> (Option<Seq<char>>, Option<Seq<char>>, Seq<char>, u32) {
    (opt_text(c.ytdlp_path), opt_text(c.ffmpeg_path), c.proxy@, c.concurrency)
}

/// The stored values as plain values.
pub open spec fn stored_view(s: StoredConfig) -> (Seq<char>, Seq<char>, Seq<char>, Seq<char>) {
    (s.ytdlp_path@, s.ffmpeg_path@, s.proxy@, s.concurrency@)
}

/// An ASCII decimal digit.
pub open spec fn is_digit(c: char) -> bool {
    48 <= (c as u32) <= 57
}

/// The value of a run of decimal digits.
pub open spec fn digits_value(s: Seq<char>) -> nat
    decreases s.len(),
{
    if s.len() == 0 {
        0
    } else {
        digits_value(s.drop_last()) * 10 + ((s.last() as u32) - 48) as nat
    }
}

/// The text after an optional leading `+`.
pub open spec fn unsigned_digits(s: Seq<char>) -> Seq<char> {
    if s.len() > 0 && s[0] == '+' {
        s.skip(1)
    } else {
        s
    }
}

/// What `str::parse::<u32>` accepts: an optional `+`, then one or more
/// decimal digits whose value fits in a `u32`.
pub open spec fn parse_u32_spec(s: Seq<char>) -> Option<u32> {
    let d = unsigned_digits(s);
    if d.len() == 0 || !(forall|i: int| 0 <= i < d.len() ==> is_digit(#[trigger] d[i])) {
        None
    } else if digits_value(d) <= u32::MAX {
        Some(digits_value(d) as u32)
    } else {
        None
    }
}

/// What `write` stores for a configuration: an absent path as empty text,
/// the concurrency as its decimal numeral.
pub open spec fn stored_spec(c: (Option<Seq<char>>, Option<Seq<char>>, Seq<char>, u32)) -> (
    Seq<char>,
    Seq<char>,
    Seq<char>,
    Seq<char>,
) {
    (
        match c.0 {
            Some(p) => p,
            None => seq![],
        },
        match c.1 {
            Some(p) => p,
            None => seq![],
        },
        c.2,
        decimal(c.3 as nat),
    )
}

/// A stored path: empty text means no override.
pub open spec fn path_setting(v: Option<Seq<char>>) -> Option<Seq<char>> {
    match v {
        Some(p) => if p.len() == 0 {
            None
        } else {
            Some(p)
        },
        None => None,
    }
}

/// What `read` makes of the four stored values (each absent where no row
/// holds it): empty or missing paths mean no override, a missing proxy is
/// none, and a missing or unparsable concurrency is the default.
pub open spec fn read_spec(
    ytdlp: Option<Seq<char>>,
    ffmpeg: Option<Seq<char>>,
    proxy: Option<Seq<char>>,
    concurrency: Option<Seq<char>>,
) -> (Option<Seq<char>>, Option<Seq<char>>, Seq<char>, u32) {
    (
        path_setting(ytdlp),
        path_setting(ffmpeg),
        match proxy {
            Some(p) => p,
            None => seq![],
        },
        match concurrency {
            Some(t) => match parse_u32_spec(t) {
                Some(n) => n,
                None => 3,
            },
            None => 3,
        },
    )
}

fn is_digit_char(c: char) -> (r: bool)
    ensures
        r == is_digit(c),
{
    let n = c as u32;
    48 <= n && n <= 57
}

/// Parses a setting as `str::parse::<u32>` does.
pub fn parse_u32(s: &str) -> (r: Option<u32>)
    ensures
        r == parse_u32_spec(s@),
{
    let v = chars_of(s);
    let start: usize = if v.len() > 0 && v[0] == '+' {
        1
    } else {
        0
    };
    let ghost d = unsigned_digits(s@);
    assert(d =~= v@.skip(start as int));
    if start == v.len() {
        return None;
    }
    let mut acc: u64 = 0;
    let mut over = false;
    let mut i: usize = start;
    assert(d.take(0) =~= Seq::<char>::empty());
    while i < v.len()
        invariant
            v@ == s@,
            d == unsigned_digits(s@),
            d == v@.skip(start as int),
            start <= i <= v@.len(),
            forall|j: int| 0 <= j < i - start ==> is_digit(#[trigger] d[j]),
            !over ==> acc == digits_value(d.take(i - start)) && acc <= u32::MAX,
            over ==> digits_value(d.take(i - start)) > u32::MAX,
        decreases v@.len() - i,
    {
        let c = v[i];
        assert(c == d[i - start]);
        if !is_digit_char(c) {
            assert(!is_digit(d[i - start]));
            assert(d.len() > 0);
            assert(!(forall|k: int| 0 <= k < d.len() ==> is_digit(#[trigger] d[k])));
            return None;
        }
        let dig = (c as u32 - 48) as u64;
        assert(d.take(i + 1 - start).drop_last() =~= d.take(i - start));
        assert(d.take(i + 1 - start).last() == c);
        if !over {
            let next = acc * 10 + dig;
            if next > 0xffff_ffffu64 {
                over = true;
            } else {
                acc = next;
            }
        }
        i = i + 1;
    }
    assert(d.take(v@.len() - start) =~= d);
    if over {
        None
    } else {
        Some(acc as u32)
    }
}

proof fn lemma_decimal_digits(n: nat)
    ensures
        decimal(n).len() > 0,
        forall|i: int| 0 <= i < decimal(n).len() ==> is_digit(#[trigger] decimal(n)[i]),
        digits_value(decimal(n)) == n,
    decreases n,
{
    assert(((n % 10 + 48) as char) as u32 == n % 10 + 48);
    if n < 10 {
        assert(decimal(n).drop_last() =~= Seq::<char>::empty());
        assert(digits_value(Seq::<char>::empty()) == 0);
        assert(decimal(n).last() == digit_char(n));
        assert(n % 10 == n);
    } else {
        lemma_decimal_digits(n / 10);
        let s = decimal(n);
        assert(s.drop_last() =~= decimal(n / 10));
        assert(s.last() == digit_char(n % 10));
        assert((n / 10) * 10 + n % 10 == n) by (nonlinear_arith);
        assert forall|i: int| 0 <= i < s.len() implies is_digit(#[trigger] s[i]) by {
            if i < s.len() - 1 {
                assert(s[i] == decimal(n / 10)[i]);
            }
        }
    }
}

/// Law: the decimal numeral of any `u32` parses back to the same number.
pub proof fn law_u32_numeral_round_trip(n: u32)
    ensures
        parse_u32_spec(decimal(n as nat)) == Some(n),
{
    lemma_decimal_digits(n as nat);
    let s = decimal(n as nat);
    assert(s[0] != '+');
}

/// The values `write` stores for a configuration.
pub fn config_to_stored(c: &AppConfig) -> (s: StoredConfig)
    ensures
        stored_view(s) == stored_spec(config_view(*c)),
{
    StoredConfig {
        ytdlp_path: match &c.ytdlp_path {
            Some(p) => p.clone(),
            None => String::new(),
        },
        ffmpeg_path: match &c.ffmpeg_path {
            Some(p) => p.clone(),
            None => String::new(),
        },
        proxy: c.proxy.clone(),
        concurrency: decimal_string(c.concurrency as u64),
    }
}

fn path_setting_of(v: Option<String>) -> (r: Option<String>)
    ensures
        opt_text(r) == path_setting(opt_text(v)),
{
    match v {
        Some(p) => if p.as_str().unicode_len() == 0 {
            None
        } else {
            Some(p)
        },
        None => None,
    }
}

/// The configuration `read` builds from the four stored values (each `None`
/// where no row holds it).
pub fn config_from_stored(
    ytdlp: Option<String>,
    ffmpeg: Option<String>,
    proxy: Option<String>,
    concurrency: Option<String>,
) -> (c: AppConfig)
    ensures
        config_view(c) == read_spec(
            opt_text(ytdlp),
            opt_text(ffmpeg),
            opt_text(proxy),
            opt_text(concurrency),
        ),
{
    let conc = match &concurrency {
        Some(t) => match parse_u32(t.as_str()) {
            Some(n) => n,
            None => DEFAULT_CONCURRENCY,
        },
        None => DEFAULT_CONCURRENCY,
    };
    AppConfig {
        ytdlp_path: path_setting_of(ytdlp),
        ffmpeg_path: path_setting_of(ffmpeg),
        proxy: match proxy {
            Some(p) => p,
            None => String::new(),
        },
        concurrency: conc,
    }
}

/// Law: reading back what was written gives the same configuration, for
/// every configuration whose path overrides are absent or non-empty (an
/// empty override is stored as "none" and reads back as absent).
pub proof fn law_config_write_then_read(c: (Option<Seq<char>>, Option<Seq<char>>, Seq<char>, u32))
    requires
        c.0 != Some(Seq::<char>::empty()),
        c.1 != Some(Seq::<char>::empty()),
    ensures
        ({
            let w = stored_spec(c);
            read_spec(Some(w.0), Some(w.1), Some(w.2), Some(w.3)) == c
        }),
{
    law_u32_numeral_round_trip(c.3);
    match c.0 {
        Some(p) => assert(p.len() != 0 || p =~= Seq::<char>::empty()),
        None => {},
    }
    match c.1 {
        Some(p) => assert(p.len() != 0 || p =~= Seq::<char>::empty()),
        None => {},
    }
}

/// How many downloads may run at once: the setting, but never fewer than one.
pub fn slot_cap(concurrency: u32) -> (n: usize)
    ensures
        n as int == if concurrency < 1 { 1 } else { concurrency as int },
{
    if concurrency < 1 {
        1
    } else {
        concurrency as usize
    }
}

/// Whether another queued download may start: fewer are running than the
/// cap `slot_cap` gives for the setting.
pub fn slot_free(running: usize, concurrency: u32) -> (r: bool)
    ensures
        r == (running < if concurrency < 1 { 1 } else { concurrency as int }),
{
    running < slot_cap(concurrency)
}

/// How many URLs are probed at once: the concurrency setting, at least one
/// and at most eight.
pub fn probe_chunk_size(concurrency: u32) -> (n: usize)
    ensures
        n as int == if concurrency < 1 {
            1
        } else if concurrency > 8 {
            8
        } else {
            concurrency as int
        },
{
    let c = if concurrency < 1 {
        1
    } else {
        concurrency
    };
    if c > 8 {
        8
    } else {
        c as usize
    }
}

} // verus!
