//! Site templates: per-site presets of URL box, output template, raw
//! parameters and format-selection mode, with the `{id:NNN}` counter that
//! the backend alone advances.

use vstd::prelude::*;

use crate::clock::{is_rfc3339_utc, now_rfc3339};
use crate::ids::{is_v4_uuid_text, new_uuid};

verus! {

/// The output template new templates start with.
pub const DEFAULT_DOWNLOAD_TO: &'static str = "~/Downloads/yt-dlp/{date:YYYY-MM-DD}_{id:NNN}_{id:guid}_{original_filename}";

/// The Parameters new templates start with.
pub const SEED_PARAMETERS: &'static str = "--no-playlist --cookies-from-browser chrome";

/// The options toggle: one mutually exclusive format-selection strategy.
pub struct OptionsConfig {
    /// "raw" | "bestVideo" | "bestAudio" | "chooseFormat".
    pub mode: String,
}

/// A saved per-site preset.
pub struct Template {
    pub id: String,
    pub name: String,
    pub urls_default: String,
    pub download_to: String,
    pub parameters: String,
    pub options: OptionsConfig,
    pub next_seq: u32,
    pub created_at: String,
    pub order: i32,
}

/// A fresh built-in template with the given identity.
pub fn seed_template(id: String, name: &str, created_at: String, order: i32) -> (t: Template)
    ensures
        t.id == id,
        t.name@ == name@,
        t.urls_default@ == Seq::<char>::empty(),
        t.download_to@ == DEFAULT_DOWNLOAD_TO@,
        t.parameters@ == SEED_PARAMETERS@,
        t.options.mode@ == "raw"@,
        t.next_seq == 1,
        t.created_at == created_at,
        t.order == order,
{
    Template {
        id,
        name: String::from_str(name),
        urls_default: String::new(),
        download_to: String::from_str(DEFAULT_DOWNLOAD_TO),
        parameters: String::from_str(SEED_PARAMETERS),
        options: OptionsConfig { mode: String::from_str("raw") },
        next_seq: 1,
        created_at,
        order,
    }
}

/// The three templates of a fresh install, in sidebar order, each with a
/// random uuid for its id and the current time; none where the random
/// source fails.
pub fn seed_templates() -> (r: Option<Vec<Template>>)
    ensures
        r matches Some(v) ==> {
            &&& v@.len() == 3
            &&& v@[0].name@ == "YouTube"@ && v@[0].order == 0
            &&& v@[1].name@ == "Bilibili"@ && v@[1].order == 1
            &&& v@[2].name@ == "TikTok"@ && v@[2].order == 2
            &&& forall|i: int|
                0 <= i < 3 ==> {
                    &&& (#[trigger] v@[i]).urls_default@ == Seq::<char>::empty()
                    &&& v@[i].download_to@ == DEFAULT_DOWNLOAD_TO@
                    &&& v@[i].parameters@ == SEED_PARAMETERS@
                    &&& v@[i].options.mode@ == "raw"@
                    &&& v@[i].next_seq == 1
                    &&& is_v4_uuid_text(v@[i].id@)
                    &&& is_rfc3339_utc(v@[i].created_at@)
                }
        },
{
    let names = ["YouTube", "Bilibili", "TikTok"];
    let mut v: Vec<Template> = Vec::new();
    let mut i: usize = 0;
    while i < 3
        invariant
            names@ == seq!["YouTube", "Bilibili", "TikTok"],
            i <= 3,
            v@.len() == i,
            forall|k: int|
                0 <= k < i ==> {
                    &&& (#[trigger] v@[k]).name@ == names@[k]@
                    &&& v@[k].order == k
                    &&& v@[k].urls_default@ == Seq::<char>::empty()
                    &&& v@[k].download_to@ == DEFAULT_DOWNLOAD_TO@
                    &&& v@[k].parameters@ == SEED_PARAMETERS@
                    &&& v@[k].options.mode@ == "raw"@
                    &&& v@[k].next_seq == 1
                    &&& is_v4_uuid_text(v@[k].id@)
                    &&& is_rfc3339_utc(v@[k].created_at@)
                },
        decreases 3 - i,
    {
        let id = match new_uuid() {
            Some(id) => id,
            None => return None,
        };
        v.push(seed_template(id, names[i], now_rfc3339(), i as i32));
        i = i + 1;
    }
    Some(v)
}

/// The first step of listing templates: stored rows, when there are any,
/// are the list; none means the legacy import is tried next. An upgrade thus
/// never looks like a fresh install.
pub fn templates_after_stored(stored: Vec<Template>) -> (r: Option<Vec<Template>>)
    ensures
        stored@.len() > 0 ==> r == Some(stored),
        stored@.len() == 0 ==> r is None,
{
    if stored.len() > 0 {
        Some(stored)
    } else {
        None
    }
}

/// The second step, when no rows were stored: imported legacy templates,
/// when there are any, are the list; none means a fresh install, which gets
/// the built-in seeds.
pub fn templates_after_import(imported: Option<Vec<Template>>) -> (r: Option<Vec<Template>>)
    ensures
        r == match imported {
            Some(l) => if l@.len() > 0 {
                Some(l)
            } else {
                None
            },
            None => None,
        },
{
    match imported {
        Some(l) => if l.len() > 0 {
            Some(l)
        } else {
            None
        },
        None => None,
    }
}

/// A template from its stored row; the wider integer columns are narrowed
/// as `as` casts do.
pub fn template_from_row(
    id: String,
    name: String,
    urls_default: String,
    download_to: String,
    parameters: String,
    mode: String,
    next_seq: i64,
    created_at: String,
    order_index: i64,
) -> (t: Template)
    ensures
        t.id == id,
        t.name == name,
        t.urls_default == urls_default,
        t.download_to == download_to,
        t.parameters == parameters,
        t.options.mode == mode,
        t.next_seq == next_seq as u32,
        t.created_at == created_at,
        t.order == order_index as i32,
{
    Template {
        id,
        name,
        urls_default,
        download_to,
        parameters,
        options: OptionsConfig { mode },
        next_seq: next_seq as u32,
        created_at,
        order: order_index as i32,
    }
}

/// The number handed out for an `{id:NNN}` token: the counter's value
/// before the increment, or 1 when the template has no row.
pub fn seq_from_row(consumed: Option<i64>) -> (n: u32)
    ensures
        n == match consumed {
            Some(v) => v as u32,
            None => 1u32,
        },
{
    match consumed {
        Some(v) => v as u32,
        None => 1,
    }
}

/// Gives a template without an id a fresh random one; none where it has no
/// id and the random source fails.
pub fn ensure_template_id(t: Template) -> (r: Option<Template>)
    ensures
        t.id@.len() > 0 ==> r == Some(t),
        t.id@.len() == 0 ==> match r {
            Some(x) => {
                &&& is_v4_uuid_text(x.id@)
                &&& x.name == t.name
                &&& x.urls_default == t.urls_default
                &&& x.download_to == t.download_to
                &&& x.parameters == t.parameters
                &&& x.options == t.options
                &&& x.next_seq == t.next_seq
                &&& x.created_at == t.created_at
                &&& x.order == t.order
            },
            None => true,
        },
{
    let mut t = t;
    if t.id.as_str().unicode_len() == 0 {
        match new_uuid() {
            Some(id) => {
                t.id = id;
            },
            None => return None,
        }
    }
    Some(t)
}

/// The backend owns `next_seq`: when the template is already stored, its
/// stored counter replaces whatever the caller sent, so a save never rewinds
/// the counter.
pub fn apply_stored_seq(t: Template, stored: Option<i64>) -> (r: Template)
    ensures
        r.next_seq == match stored {
            Some(s) => s as u32,
            None => t.next_seq,
        },
        r.id == t.id,
        r.name == t.name,
        r.urls_default == t.urls_default,
        r.download_to == t.download_to,
        r.parameters == t.parameters,
        r.options == t.options,
        r.created_at == t.created_at,
        r.order == t.order,
{
    let mut t = t;
    match stored {
        Some(s) => {
            t.next_seq = s as u32;
        },
        None => {},
    }
    t
}

} // verus!
