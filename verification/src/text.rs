//! Character-level text rules shared by the rest of the library, each stated
//! over `Seq<char>` and implemented over the characters of a `str`.

use vstd::prelude::*;

verus! {

/// `String::push` appends one character.
pub assume_specification[ String::push ](s: &mut String, ch: char)
    ensures
        final(s)@ == old(s)@.push(ch),
;

/// The character contents of a sequence of owned strings.
pub open spec fn texts(v: Seq<String>) -> Seq<Seq<char>> {
    v.map_values(|s: String| s@)
}

/// Copies the characters of `s` into a vector.
pub fn chars_of(s: &str) -> (v: Vec<char>)
    ensures
        v@ == s@,
{
    broadcast use vstd::string::group_string_axioms;

    let mut v: Vec<char> = Vec::new();
    for c in it: s.chars()
        invariant
            it.seq() == s@,
            v@ == it.seq().take(it.index() as int),
    {
        v.push(c);
        assert(v@ =~= it.seq().take(it.index() + 1));
    }
    assert(v@ =~= s@);
    v
}

/// Builds an owned string from a slice of characters.
pub fn string_from(cs: &[char]) -> (s: String)
    ensures
        s@ == cs@,
{
    let mut s = String::new();
    let mut i: usize = 0;
    while i < cs.len()
        invariant
            i <= cs@.len(),
            s@ == cs@.subrange(0, i as int),
        decreases cs@.len() - i,
    {
        s.push(cs[i]);
        i = i + 1;
        assert(s@ =~= cs@.subrange(0, i as int));
    }
    assert(s@ =~= cs@);
    s
}

/// Character-wise equality of two strings.
pub fn str_eq(a: &str, b: &str) -> (r: bool)
    ensures
        r == (a@ == b@),
{
    let av = chars_of(a);
    let bv = chars_of(b);
    if av.len() != bv.len() {
        return false;
    }
    let mut i: usize = 0;
    while i < av.len()
        invariant
            av@ == a@,
            bv@ == b@,
            av@.len() == bv@.len(),
            i <= av@.len(),
            forall|j: int| 0 <= j < i ==> av@[j] == bv@[j],
        decreases av@.len() - i,
    {
        if av[i] != bv[i] {
            return false;
        }
        i = i + 1;
    }
    assert(a@ =~= b@);
    true
}


/// `p` occurs in `s` starting at index `i`.
pub open spec fn occurs_at(s: Seq<char>, p: Seq<char>, i: int) -> bool {
    0 <= i && i + p.len() <= s.len() && s.subrange(i, i + p.len()) == p
}

/// `s` begins with `p`.
pub open spec fn starts_with(s: Seq<char>, p: Seq<char>) -> bool {
    occurs_at(s, p, 0)
}

/// The first index at or after `i` where `p` occurs in `s`.
pub open spec fn find_from(s: Seq<char>, p: Seq<char>, i: int) -> Option<int>
    decreases s.len() - i,
{
    if i < 0 || i > s.len() {
        None
    } else if occurs_at(s, p, i) {
        Some(i)
    } else if i == s.len() {
        None
    } else {
        find_from(s, p, i + 1)
    }
}

/// The first index where `p` occurs in `s`.
pub open spec fn find(s: Seq<char>, p: Seq<char>) -> Option<int> {
    find_from(s, p, 0)
}

/// `p` occurs somewhere in `s`.
pub open spec fn contains(s: Seq<char>, p: Seq<char>) -> bool {
    find(s, p) is Some
}

/// `find_from` gives the least occurrence at or after `i`, or reports that there is none.
pub proof fn lemma_find_from(s: Seq<char>, p: Seq<char>, i: int)
    requires
        0 <= i <= s.len(),
    ensures
        match find_from(s, p, i) {
            Some(k) => i <= k <= s.len() && occurs_at(s, p, k) && forall|j: int|
                i <= j < k ==> !occurs_at(s, p, j),
            None => forall|j: int| i <= j <= s.len() ==> !occurs_at(s, p, j),
        },
    decreases s.len() - i,
{
    if !occurs_at(s, p, i) && i < s.len() {
        lemma_find_from(s, p, i + 1);
    }
}

/// `find` gives the least occurrence, or reports that there is none.
pub proof fn lemma_find(s: Seq<char>, p: Seq<char>)
    ensures
        match find(s, p) {
            Some(k) => 0 <= k <= s.len() && occurs_at(s, p, k) && forall|j: int|
                0 <= j < k ==> !occurs_at(s, p, j),
            None => forall|j: int| !occurs_at(s, p, j),
        },
{
    lemma_find_from(s, p, 0);
}

/// Whether `p` occurs in `s` at `i` (both given as character vectors).
pub fn matches_at(s: &Vec<char>, p: &Vec<char>, i: usize) -> (r: bool)
    ensures
        r == occurs_at(s@, p@, i as int),
{
    if i > s.len() || p.len() > s.len() - i {
        return false;
    }
    let mut j: usize = 0;
    while j < p.len()
        invariant
            i + p@.len() <= s.len(),
            j <= p@.len(),
            forall|t: int| 0 <= t < j ==> s@[i + t] == p@[t],
        decreases p@.len() - j,
    {
        if s[i + j] != p[j] {
            assert(s@.subrange(i as int, i + p@.len())[j as int] != p@[j as int]);
            return false;
        }
        j = j + 1;
    }
    assert(s@.subrange(i as int, i + p@.len()) =~= p@);
    true
}

/// The index of the first occurrence of `p` in `s`, over character vectors.
pub fn find_chars(s: &Vec<char>, p: &Vec<char>) -> (r: Option<usize>)
    ensures
        match r {
            Some(k) => find(s@, p@) == Some(k as int),
            None => find(s@, p@) is None,
        },
{
    let mut i: usize = 0;
    while i <= s.len()
        invariant
            i <= s@.len() + 1,
            i <= s@.len() ==> find(s@, p@) == find_from(s@, p@, i as int),
            i > s@.len() ==> find(s@, p@) is None,
        decreases s@.len() + 1 - i,
    {
        if matches_at(s, p, i) {
            return Some(i);
        }
        if i == s.len() {
            return None;
        }
        i = i + 1;
    }
    None
}

/// Whether `p` occurs in `s`.
pub fn str_contains(s: &str, p: &str) -> (r: bool)
    ensures
        r == contains(s@, p@),
{
    let sv = chars_of(s);
    let pv = chars_of(p);
    find_chars(&sv, &pv).is_some()
}

/// Whether `s` begins with `p`.
pub fn str_starts_with(s: &str, p: &str) -> (r: bool)
    ensures
        r == starts_with(s@, p@),
{
    let sv = chars_of(s);
    let pv = chars_of(p);
    matches_at(&sv, &pv, 0)
}


/// Every non-overlapping occurrence of a non-empty `p`, scanning left to
/// right, replaced by `r` (an empty pattern leaves `s` as it is).
pub open spec fn replace_all(s: Seq<char>, p: Seq<char>, r: Seq<char>) -> Seq<char>
    decreases s.len(),
{
    if p.len() == 0 || s.len() == 0 {
        s
    } else if starts_with(s, p) {
        r + replace_all(s.skip(p.len() as int), p, r)
    } else {
        seq![s[0]] + replace_all(s.skip(1), p, r)
    }
}

/// The first occurrence of `p` replaced by `r`.
pub open spec fn replace_first(s: Seq<char>, p: Seq<char>, r: Seq<char>) -> Seq<char> {
    match find(s, p) {
        Some(k) => s.take(k) + r + s.skip(k + p.len()),
        None => s,
    }
}

/// The parts of `s` before and after the first occurrence of `p`.
pub open spec fn split_once(s: Seq<char>, p: Seq<char>) -> Option<(Seq<char>, Seq<char>)> {
    match find(s, p) {
        Some(k) => Some((s.take(k), s.skip(k + p.len()))),
        None => None,
    }
}

proof fn lemma_occurs_at_skip(s: Seq<char>, p: Seq<char>, i: int)
    requires
        0 <= i <= s.len(),
    ensures
        occurs_at(s, p, i) == starts_with(s.skip(i), p),
{
    if occurs_at(s, p, i) {
        assert(s.skip(i).subrange(0, p.len() as int) =~= s.subrange(i, i + p.len()));
    }
    if starts_with(s.skip(i), p) {
        assert(s.skip(i).subrange(0, p.len() as int) =~= s.subrange(i, i + p.len()));
    }
}

/// Appends the characters of `src` to `dst`.
pub fn push_all(dst: &mut Vec<char>, src: &Vec<char>)
    ensures
        final(dst)@ == old(dst)@ + src@,
{
    let mut i: usize = 0;
    while i < src.len()
        invariant
            i <= src@.len(),
            dst@ == old(dst)@ + src@.subrange(0, i as int),
        decreases src@.len() - i,
    {
        dst.push(src[i]);
        i = i + 1;
        assert(dst@ =~= old(dst)@ + src@.subrange(0, i as int));
    }
    assert(src@.subrange(0, src@.len() as int) =~= src@);
}

/// The first index at or after `i` holding `c`, located in `v.skip(i)` as
/// `find` reports it.
pub fn next_index_of(v: &Vec<char>, c: char, i: usize) -> (r: Option<usize>)
    requires
        i <= v@.len(),
    ensures
        match r {
            Some(k) => i <= k < v@.len() && find(v@.skip(i as int), seq![c]) == Some(k - i),
            None => find(v@.skip(i as int), seq![c]) is None,
        },
{
    let ghost t = v@.skip(i as int);
    let mut j: usize = i;
    while j < v.len()
        invariant
            i <= j <= v@.len(),
            t == v@.skip(i as int),
            find(t, seq![c]) == find_from(t, seq![c], j - i),
        decreases v@.len() - j,
    {
        assert(occurs_at(t, seq![c], j - i) == (v@[j as int] == c)) by {
            let k: int = j - i;
            let piece = t.subrange(k, k + 1);
            assert(t.len() == v@.len() - i);
            assert(t[k] == v@[j as int]);
            if v@[j as int] == c {
                assert(piece =~= seq![c]);
            } else {
                assert(piece[0] != seq![c][0]);
            }
        }
        if v[j] == c {
            return Some(j);
        }
        j = j + 1;
    }
    assert(t.len() == j - i);
    assert(!occurs_at(t, seq![c], j - i));
    None
}

/// `replace_all` over character vectors.
pub fn replace_all_chars(s: &Vec<char>, p: &Vec<char>, r: &Vec<char>) -> (out: Vec<char>)
    ensures
        out@ == replace_all(s@, p@, r@),
{
    let mut out: Vec<char> = Vec::new();
    if p.len() == 0 {
        push_all(&mut out, s);
        return out;
    }
    let mut i: usize = 0;
    assert(s@.skip(0) =~= s@);
    assert(out@ + replace_all(s@, p@, r@) =~= replace_all(s@, p@, r@));
    while i < s.len()
        invariant
            p@.len() > 0,
            i <= s@.len(),
            out@ + replace_all(s@.skip(i as int), p@, r@) == replace_all(s@, p@, r@),
        decreases s@.len() - i,
    {
        let ghost rest = s@.skip(i as int);
        proof {
            lemma_occurs_at_skip(s@, p@, i as int);
        }
        if matches_at(s, p, i) {
            assert(rest.skip(p@.len() as int) =~= s@.skip(i + p@.len()));
            push_all(&mut out, r);
            i = i + p.len();
        } else {
            assert(rest.skip(1) =~= s@.skip(i + 1));
            assert(rest[0] == s@[i as int]);
            out.push(s[i]);
            i = i + 1;
        }
        assert(out@ + replace_all(s@.skip(i as int), p@, r@) =~= replace_all(s@, p@, r@));
    }
    assert(s@.skip(i as int) =~= Seq::<char>::empty());
    assert(out@ + Seq::<char>::empty() =~= out@);
    out
}

/// `replace_all` over strings.
pub fn str_replace_all(s: &str, p: &str, r: &str) -> (out: String)
    ensures
        out@ == replace_all(s@, p@, r@),
{
    let sv = chars_of(s);
    let pv = chars_of(p);
    let rv = chars_of(r);
    let ov = replace_all_chars(&sv, &pv, &rv);
    string_from(ov.as_slice())
}

/// The characters `s[from..to]` as a new vector.
pub fn slice_chars(s: &Vec<char>, from: usize, to: usize) -> (out: Vec<char>)
    requires
        from <= to <= s@.len(),
    ensures
        out@ == s@.subrange(from as int, to as int),
{
    let mut out: Vec<char> = Vec::new();
    let mut i: usize = from;
    while i < to
        invariant
            from <= i <= to <= s@.len(),
            out@ == s@.subrange(from as int, i as int),
        decreases to - i,
    {
        out.push(s[i]);
        i = i + 1;
        assert(out@ =~= s@.subrange(from as int, i as int));
    }
    out
}

/// `replace_first` over strings.
pub fn str_replace_first(s: &str, p: &str, r: &str) -> (out: String)
    ensures
        out@ == replace_first(s@, p@, r@),
{
    let sv = chars_of(s);
    let pv = chars_of(p);
    let rv = chars_of(r);
    proof {
        lemma_find(sv@, pv@);
    }
    match find_chars(&sv, &pv) {
        Some(k) => {
            assert(occurs_at(sv@, pv@, k as int));
            let n = sv.len();
            assert(k + pv@.len() <= n);
            let mut out = slice_chars(&sv, 0, k);
            push_all(&mut out, &rv);
            let tail = slice_chars(&sv, k + pv.len(), sv.len());
            push_all(&mut out, &tail);
            assert(out@ =~= sv@.take(k as int) + rv@ + sv@.skip(k + pv@.len()));
            string_from(out.as_slice())
        },
        None => string_from(sv.as_slice()),
    }
}


/// The Unicode `White_Space` property, the set `char::is_whitespace` and
/// `str::trim` go by.
pub open spec fn is_white_space(c: char) -> bool {
    let n = c as u32;
    ||| 0x9 <= n <= 0xd
    ||| n == 0x20
    ||| n == 0x85
    ||| n == 0xa0
    ||| n == 0x1680
    ||| 0x2000 <= n <= 0x200a
    ||| n == 0x2028
    ||| n == 0x2029
    ||| n == 0x202f
    ||| n == 0x205f
    ||| n == 0x3000
}

/// Whether `c` is Unicode white space.
pub fn is_whitespace(c: char) -> (r: bool)
    ensures
        r == is_white_space(c),
{
    let n = c as u32;
    (0x9 <= n && n <= 0xd) || n == 0x20 || n == 0x85 || n == 0xa0 || n == 0x1680 || (0x2000
        <= n && n <= 0x200a) || n == 0x2028 || n == 0x2029 || n == 0x202f || n == 0x205f || n
        == 0x3000
}

/// `s` without its leading white space.
pub open spec fn trim_start(s: Seq<char>) -> Seq<char>
    decreases s.len(),
{
    if s.len() > 0 && is_white_space(s[0]) {
        trim_start(s.skip(1))
    } else {
        s
    }
}

/// `s` without its trailing white space.
pub open spec fn trim_end(s: Seq<char>) -> Seq<char>
    decreases s.len(),
{
    if s.len() > 0 && is_white_space(s.last()) {
        trim_end(s.drop_last())
    } else {
        s
    }
}

/// `s` without leading and trailing white space.
pub open spec fn trim(s: Seq<char>) -> Seq<char> {
    trim_end(trim_start(s))
}

/// Every character of `s` is white space.
pub open spec fn is_blank(s: Seq<char>) -> bool {
    forall|i: int| 0 <= i < s.len() ==> is_white_space(#[trigger] s[i])
}

/// Trimming leaves nothing exactly when the text is blank.
pub proof fn lemma_trim_empty_iff_blank(s: Seq<char>)
    ensures
        (trim(s).len() == 0) == is_blank(s),
    decreases s.len(),
{
    if s.len() > 0 && is_white_space(s[0]) {
        lemma_trim_empty_iff_blank(s.skip(1));
        if is_blank(s.skip(1)) {
            assert forall|i: int| 0 <= i < s.len() implies is_white_space(#[trigger] s[i]) by {
                if i > 0 {
                    assert(s[i] == s.skip(1)[i - 1]);
                }
            }
        }
        if is_blank(s) {
            assert forall|i: int| 0 <= i < s.len() - 1 implies is_white_space(
                #[trigger] s.skip(1)[i],
            ) by {
                assert(s.skip(1)[i] == s[i + 1]);
            }
        }
    } else if s.len() > 0 {
        lemma_trim_end_keeps_first(s);
    }
}

proof fn lemma_trim_end_keeps_first(s: Seq<char>)
    requires
        s.len() > 0,
        !is_white_space(s[0]),
    ensures
        trim_end(s).len() > 0,
    decreases s.len(),
{
    if is_white_space(s.last()) {
        assert(s.len() > 1);
        assert(s.drop_last()[0] == s[0]);
        lemma_trim_end_keeps_first(s.drop_last());
    }
}

/// Whether `s` holds anything besides white space.
pub fn has_content(s: &str) -> (r: bool)
    ensures
        r == !is_blank(s@),
{
    let v = chars_of(s);
    let mut i: usize = 0;
    while i < v.len()
        invariant
            v@ == s@,
            i <= v@.len(),
            forall|j: int| 0 <= j < i ==> is_white_space(#[trigger] v@[j]),
        decreases v@.len() - i,
    {
        if !is_whitespace(v[i]) {
            return true;
        }
        i = i + 1;
    }
    false
}

/// The index of the first non-white character of `v`, or its length.
fn trim_start_index(v: &Vec<char>) -> (i: usize)
    ensures
        i <= v@.len(),
        trim_start(v@) == v@.skip(i as int),
{
    let mut i: usize = 0;
    assert(v@.skip(0) =~= v@);
    while i < v.len() && is_whitespace(v[i])
        invariant
            i <= v@.len(),
            trim_start(v@.skip(i as int)) == trim_start(v@),
        decreases v@.len() - i,
    {
        assert(v@.skip(i as int).skip(1) =~= v@.skip(i + 1));
        i = i + 1;
    }
    i
}

/// The end of `v.skip(from)` once trailing white space is cut off.
fn trim_end_index(v: &Vec<char>, from: usize) -> (j: usize)
    requires
        from <= v@.len(),
    ensures
        from <= j <= v@.len(),
        trim_end(v@.skip(from as int)) == v@.subrange(from as int, j as int),
{
    let mut j: usize = v.len();
    assert(v@.subrange(from as int, j as int) =~= v@.skip(from as int));
    while j > from && is_whitespace(v[j - 1])
        invariant
            from <= j <= v@.len(),
            trim_end(v@.subrange(from as int, j as int)) == trim_end(v@.skip(from as int)),
        decreases j,
    {
        assert(v@.subrange(from as int, j as int).drop_last() =~= v@.subrange(
            from as int,
            j - 1,
        ));
        j = j - 1;
    }
    j
}

/// `trim` over strings.
pub fn str_trim(s: &str) -> (out: String)
    ensures
        out@ == trim(s@),
{
    let v = chars_of(s);
    let i = trim_start_index(&v);
    let j = trim_end_index(&v, i);
    let t = slice_chars(&v, i, j);
    string_from(t.as_slice())
}

/// `trim_start` over strings.
pub fn str_trim_start(s: &str) -> (out: String)
    ensures
        out@ == trim_start(s@),
{
    let v = chars_of(s);
    let i = trim_start_index(&v);
    let t = slice_chars(&v, i, v.len());
    assert(t@ =~= v@.skip(i as int));
    string_from(t.as_slice())
}


/// A line without the carriage return that preceded its line feed.
pub open spec fn strip_cr(l: Seq<char>) -> Seq<char> {
    if l.len() > 0 && l.last() == '\r' {
        l.drop_last()
    } else {
        l
    }
}

/// The lines of `s` as `str::lines` yields them: split at each `\n`, a
/// `\r` directly before a `\n` dropped, and no empty line after a final `\n`.
pub open spec fn lines(s: Seq<char>) -> Seq<Seq<char>>
    decreases s.len(),
{
    if s.len() == 0 {
        seq![]
    } else {
        match find(s, seq!['\n']) {
            Some(k) => {
                proof {
                    lemma_find(s, seq!['\n']);
                }
                seq![strip_cr(s.take(k))] + lines(s.skip(k + 1))
            },
            None => seq![s],
        }
    }
}

/// The first line of `s`, or nothing for empty text.
pub open spec fn first_line(s: Seq<char>) -> Seq<char> {
    if lines(s).len() > 0 {
        lines(s)[0]
    } else {
        seq![]
    }
}

/// The lines of a string, as `str::lines` yields them.
pub fn str_lines(s: &str) -> (out: Vec<String>)
    ensures
        texts(out@) == lines(s@),
{
    let v = chars_of(s);
    let mut out: Vec<String> = Vec::new();
    let mut i: usize = 0;
    assert(v@.skip(0) =~= v@);
    while i < v.len()
        invariant
            v@ == s@,
            i <= v@.len(),
            texts(out@) + lines(v@.skip(i as int)) == lines(s@),
        decreases v@.len() - i,
    {
        let ghost rest = v@.skip(i as int);
        proof {
            lemma_find(rest, seq!['\n']);
        }
        match next_index_of(&v, '\n', i) {
            Some(e) => {
                let k = e - i;
                let mut line = slice_chars(&v, i, e);
                assert(line@ =~= rest.take(k as int));
                if k > 0 && line[k - 1] == '\r' {
                    line.pop();
                }
                assert(line@ =~= strip_cr(rest.take(k as int)));
                let ghost old_out = out@;
                out.push(string_from(line.as_slice()));
                assert(rest.skip(k + 1) =~= v@.skip(e + 1));
                assert(texts(out@) =~= texts(old_out).push(line@));
                assert(lines(rest) == seq![line@] + lines(v@.skip(e + 1)));
                assert(texts(out@) + lines(v@.skip(e + 1)) =~= texts(old_out) + lines(rest));
                i = e + 1;
            },
            None => {
                let tail = slice_chars(&v, i, v.len());
                assert(tail@ =~= rest);
                let ghost old_out = out@;
                out.push(string_from(tail.as_slice()));
                assert(texts(out@) =~= texts(old_out).push(rest));
                assert(v@.skip(v@.len() as int) =~= Seq::<char>::empty());
                assert(lines(rest) == seq![rest]);
                assert(texts(out@) + lines(v@.skip(v@.len() as int)) =~= texts(old_out) + lines(
                    rest,
                ));
                i = v.len();
            },
        }
    }
    assert(v@.skip(i as int) =~= Seq::<char>::empty());
    assert(texts(out@) + lines(v@.skip(i as int)) =~= texts(out@));
    out
}

/// The first whitespace-separated word of `s`, as `split_whitespace().next()`
/// yields it.
pub open spec fn first_word(s: Seq<char>) -> Option<Seq<char>> {
    let t = trim_start(s);
    if t.len() == 0 {
        None
    } else {
        Some(t.take(word_len(t, 0)))
    }
}

/// The length of the run of non-white characters of `s` starting at `i`, plus `i`.
pub open spec fn word_len(s: Seq<char>, i: int) -> int
    decreases s.len() - i,
{
    if i < 0 || i >= s.len() || is_white_space(s[i]) {
        i
    } else {
        word_len(s, i + 1)
    }
}

proof fn lemma_word_len(s: Seq<char>, i: int)
    requires
        0 <= i <= s.len(),
    ensures
        i <= word_len(s, i) <= s.len(),
    decreases s.len() - i,
{
    if i < s.len() && !is_white_space(s[i]) {
        lemma_word_len(s, i + 1);
    }
}

/// `first_word` over strings.
pub fn str_first_word(s: &str) -> (out: Option<String>)
    ensures
        match out {
            Some(w) => first_word(s@) == Some(w@),
            None => first_word(s@) is None,
        },
{
    let v = chars_of(s);
    let i = trim_start_index(&v);
    if i == v.len() {
        assert(trim_start(s@).len() == 0);
        return None;
    }
    let ghost t = v@.skip(i as int);
    let mut j: usize = i;
    while j < v.len() && !is_whitespace(v[j])
        invariant
            i <= j <= v@.len(),
            t == v@.skip(i as int),
            word_len(t, j - i) == word_len(t, 0),
        decreases v@.len() - j,
    {
        assert(t[j - i] == v@[j as int]);
        j = j + 1;
    }
    proof {
        if j < v@.len() {
            assert(t[j - i] == v@[j as int]);
        }
        lemma_word_len(t, 0);
    }
    let w = slice_chars(&v, i, j);
    assert(w@ =~= t.take(j - i));
    Some(string_from(w.as_slice()))
}

/// The decimal digit for `d < 10`.
pub open spec fn digit_char(d: nat) -> char {
    (d + 48) as char
}

/// The decimal numeral of `n`, without leading zeros.
pub open spec fn decimal(n: nat) -> Seq<char>
    decreases n,
{
    if n < 10 {
        seq![digit_char(n)]
    } else {
        decimal(n / 10).push(digit_char(n % 10))
    }
}

/// `digits` padded on the left with `0` to at least `width` characters.
pub open spec fn zero_padded(digits: Seq<char>, width: nat) -> Seq<char> {
    if digits.len() >= width {
        digits
    } else {
        Seq::new((width - digits.len()) as nat, |_i: int| '0') + digits
    }
}

fn digit(d: u64) -> (c: char)
    requires
        d < 10,
    ensures
        c == digit_char(d as nat),
{
    let b: u8 = 48 + d as u8;
    b as char
}

/// The decimal numeral of `n` as characters.
pub fn decimal_chars(n: u64) -> (v: Vec<char>)
    ensures
        v@ == decimal(n as nat),
    decreases n,
{
    if n < 10 {
        let mut v: Vec<char> = Vec::new();
        v.push(digit(n));
        assert(v@ =~= seq![digit_char(n as nat)]);
        v
    } else {
        let mut v = decimal_chars(n / 10);
        v.push(digit(n % 10));
        v
    }
}

/// The decimal numeral of `n`.
pub fn decimal_string(n: u64) -> (s: String)
    ensures
        s@ == decimal(n as nat),
{
    let v = decimal_chars(n);
    string_from(v.as_slice())
}

/// The decimal numeral of `n`, zero-padded to `width` characters as
/// `format!("{n:0width$}")` writes it.
pub fn zero_padded_decimal(n: u64, width: usize) -> (s: String)
    ensures
        s@ == zero_padded(decimal(n as nat), width as nat),
{
    let digits = decimal_chars(n);
    let mut out: Vec<char> = Vec::new();
    if digits.len() < width {
        let pad = width - digits.len();
        let mut i: usize = 0;
        while i < pad
            invariant
                i <= pad,
                out@ == Seq::new(i as nat, |_i: int| '0'),
            decreases pad - i,
        {
            out.push('0');
            i = i + 1;
            assert(out@ =~= Seq::new(i as nat, |_i: int| '0'));
        }
    }
    push_all(&mut out, &digits);
    assert(out@ =~= zero_padded(decimal(n as nat), width as nat));
    string_from(out.as_slice())
}


/// The pieces of `s` between occurrences of `c`, as `str::split` with a
/// character pattern yields them (an empty text gives one empty piece).
pub open spec fn split_on(s: Seq<char>, c: char) -> Seq<Seq<char>>
    decreases s.len(),
{
    match find(s, seq![c]) {
        Some(k) => {
            proof {
                lemma_find(s, seq![c]);
            }
            seq![s.take(k)] + split_on(s.skip(k + 1), c)
        },
        None => seq![s],
    }
}

/// `split_on` over a character vector.
pub fn split_chars(v: &Vec<char>, c: char) -> (out: Vec<String>)
    ensures
        texts(out@) == split_on(v@, c),
{
    let mut out: Vec<String> = Vec::new();
    let mut i: usize = 0;
    assert(v@.skip(0) =~= v@);
    loop
        invariant
            i <= v@.len(),
            texts(out@) + split_on(v@.skip(i as int), c) == split_on(v@, c),
        decreases v@.len() - i,
    {
        let n: usize = v.len();
        let ghost rest = v@.skip(i as int);
        proof {
            lemma_find(rest, seq![c]);
        }
        match next_index_of(v, c, i) {
            Some(e) => {
                let k = e - i;
                let piece = slice_chars(v, i, e);
                let ghost old_out = out@;
                out.push(string_from(piece.as_slice()));
                assert(rest.skip(k + 1) =~= v@.skip(e + 1));
                assert(texts(out@) =~= texts(old_out).push(piece@));
                assert(piece@ =~= rest.take(k as int));
                assert(split_on(rest, c) == seq![piece@] + split_on(v@.skip(e + 1), c));
                assert(texts(out@) + split_on(v@.skip(e + 1), c) =~= texts(old_out) + split_on(
                    rest,
                    c,
                ));
                i = e + 1;
            },
            None => {
                let tail = slice_chars(v, i, n);
                assert(tail@ =~= rest);
                let ghost old_out = out@;
                out.push(string_from(tail.as_slice()));
                assert(texts(out@) =~= texts(old_out).push(rest));
                assert(split_on(rest, c) == seq![rest]);
                assert(texts(out@) =~= texts(old_out) + split_on(rest, c));
                return out;
            },
        }
    }
}

/// The parts joined with `sep` between neighbours, as `[String]::join` does.
pub open spec fn join(parts: Seq<Seq<char>>, sep: Seq<char>) -> Seq<char>
    decreases parts.len(),
{
    if parts.len() == 0 {
        seq![]
    } else if parts.len() == 1 {
        parts[0]
    } else {
        join(parts.drop_last(), sep) + sep + parts.last()
    }
}

/// `join` over owned strings.
pub fn join_strings(parts: &Vec<String>, sep: &str) -> (out: String)
    ensures
        out@ == join(texts(parts@), sep@),
{
    let ghost ps = texts(parts@);
    let mut out = String::new();
    let mut i: usize = 0;
    assert(ps.take(0) =~= Seq::<Seq<char>>::empty());
    while i < parts.len()
        invariant
            ps == texts(parts@),
            ps.len() == parts@.len(),
            i <= parts@.len(),
            out@ == join(ps.take(i as int), sep@),
        decreases parts@.len() - i,
    {
        assert(ps.take(i + 1).drop_last() =~= ps.take(i as int));
        assert(ps.take(i + 1).last() == parts@[i as int]@);
        if i > 0 {
            out.append(sep);
        } else {
            assert(ps.take(1) =~= seq![parts@[0]@]);
        }
        out.append(parts[i].as_str());
        i = i + 1;
    }
    assert(ps.take(parts@.len() as int) =~= ps);
    out
}

} // verus!
