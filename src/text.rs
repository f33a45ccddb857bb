//! Byte-level text primitives for configuration parsing: substring search,
//! tagged elements, flag values and `key=value` lines.
use vstd::prelude::*;

verus! {

/// Line feed.
pub const LF: u8 = 10;
/// Tab.
pub const TAB: u8 = 9;
/// Space.
pub const SPACE: u8 = 32;
/// Double quote.
pub const QUOTE: u8 = 34;
/// `<`
pub const LESS: u8 = 60;
/// `>`
pub const GREATER: u8 = 62;
/// `/`
pub const SLASH: u8 = 47;

/// Whether `n` occurs in `h` at position `i`.
pub open spec fn matches_at(h: Seq<u8>, n: Seq<u8>, i: int) -> bool {
    0 <= i && i + n.len() <= h.len() && h.subrange(i, i + n.len()) == n
}

/// The first position at or after `from` where `n` occurs in `h`.
pub open spec fn find_from(h: Seq<u8>, n: Seq<u8>, from: int) -> Option<int>
    decreases h.len() - from,
{
    if from < 0 || from >= h.len() || from + n.len() > h.len() {
        None
    } else if matches_at(h, n, from) {
        Some(from)
    } else {
        find_from(h, n, from + 1)
    }
}

/// A position found by `find_from` is a match at or after `from`.
pub proof fn lemma_find_from_found(h: Seq<u8>, n: Seq<u8>, from: int)
    ensures
        find_from(h, n, from) matches Some(i) ==> from <= i && matches_at(h, n, i) && i < h.len(),
    decreases h.len() - from,
{
    if !(from < 0 || from >= h.len() || from + n.len() > h.len()) && !matches_at(h, n, from) {
        lemma_find_from_found(h, n, from + 1);
    }
}

/// Whether `n` occurs in `h` at `i`.
fn matches_exec(h: &[u8], n: &[u8], i: usize) -> (r: bool)
    requires
        i + n@.len() <= h@.len(),
    ensures
        r == matches_at(h@, n@, i as int),
{
    let hl = h.len();
    let mut k: usize = 0;
    while k < n.len()
        invariant
            hl == h@.len(),
            i + n@.len() <= h@.len(),
            k <= n@.len(),
            forall|j: int| 0 <= j < k ==> h@[i + j] == n@[j],
        decreases n@.len() - k,
    {
        if h[i + k] != n[k] {
            assert(h@.subrange(i as int, i + n@.len())[k as int] != n@[k as int]);
            return false;
        }
        k = k + 1;
    }
    assert(h@.subrange(i as int, i + n@.len()) =~= n@);
    true
}

/// The first position at or after `from` where `n` occurs in `h`.
pub fn find(h: &[u8], n: &[u8], from: usize) -> (r: Option<usize>)
    ensures
        match r {
            Some(i) => find_from(h@, n@, from as int) == Some(i as int),
            None => find_from(h@, n@, from as int) is None,
        },
{
    let mut i: usize = from;
    while i < h.len() && n.len() <= h.len() - i
        invariant
            from <= i,
            find_from(h@, n@, from as int) == find_from(h@, n@, i as int),
        decreases h@.len() - i,
    {
        if matches_exec(h, n, i) {
            return Some(i);
        }
        i = i + 1;
    }
    None
}

/// Bytes `lo..hi` of `h`.
pub fn copy_range(h: &[u8], lo: usize, hi: usize) -> (r: Vec<u8>)
    requires
        lo <= hi <= h@.len(),
    ensures
        r@ == h@.subrange(lo as int, hi as int),
{
    let mut out: Vec<u8> = Vec::new();
    let mut i: usize = lo;
    while i < hi
        invariant
            lo <= i <= hi <= h@.len(),
            out@ == h@.subrange(lo as int, i as int),
        decreases hi - i,
    {
        out.push(h[i]);
        i = i + 1;
        assert(out@ =~= h@.subrange(lo as int, i as int));
    }
    out
}

/// `<name>`
pub open spec fn open_tag(name: Seq<u8>) -> Seq<u8> {
    seq![LESS] + name + seq![GREATER]
}

/// `</name>`
pub open spec fn close_tag(name: Seq<u8>) -> Seq<u8> {
    seq![LESS, SLASH] + name + seq![GREATER]
}

/// Builds `<name>`.
pub fn make_open_tag(name: &[u8]) -> (r: Vec<u8>)
    ensures
        r@ == open_tag(name@),
{
    let mut out: Vec<u8> = Vec::new();
    out.push(LESS);
    let mut i: usize = 0;
    while i < name.len()
        invariant
            i <= name@.len(),
            out@ == seq![LESS] + name@.subrange(0, i as int),
        decreases name@.len() - i,
    {
        out.push(name[i]);
        i = i + 1;
        assert(out@ =~= seq![LESS] + name@.subrange(0, i as int));
    }
    out.push(GREATER);
    assert(name@.subrange(0, i as int) =~= name@);
    assert(out@ =~= open_tag(name@));
    out
}

/// Builds `</name>`.
pub fn make_close_tag(name: &[u8]) -> (r: Vec<u8>)
    ensures
        r@ == close_tag(name@),
{
    let mut out: Vec<u8> = Vec::new();
    out.push(LESS);
    out.push(47u8);
    let mut i: usize = 0;
    while i < name.len()
        invariant
            i <= name@.len(),
            out@ == seq![LESS, SLASH] + name@.subrange(0, i as int),
        decreases name@.len() - i,
    {
        out.push(name[i]);
        i = i + 1;
        assert(out@ =~= seq![LESS, SLASH] + name@.subrange(0, i as int));
    }
    out.push(GREATER);
    assert(name@.subrange(0, i as int) =~= name@);
    assert(out@ =~= close_tag(name@));
    out
}

/// The text between the first `<name>` of `h` and the first `</name>` after it.
pub open spec fn element(h: Seq<u8>, name: Seq<u8>) -> Option<Seq<u8>> {
    let o = open_tag(name);
    match find_from(h, o, 0) {
        Some(a) => match find_from(h, close_tag(name), a + o.len()) {
            Some(b) => Some(h.subrange(a + o.len(), b)),
            None => None,
        },
        None => None,
    }
}

/// The element's text, or empty where it is missing.
pub open spec fn field(h: Seq<u8>, name: Seq<u8>) -> Seq<u8> {
    match element(h, name) {
        Some(v) => v,
        None => Seq::empty(),
    }
}

/// The text of element `name` in `h`, empty where the element is missing.
pub fn field_value(h: &[u8], name: &[u8]) -> (r: Vec<u8>)
    ensures
        r@ == field(h@, name@),
{
    let hl = h.len();
    let o = make_open_tag(name);
    let c = make_close_tag(name);
    match find(h, o.as_slice(), 0) {
        Some(a) => {
            proof {
                lemma_find_from_found(h@, o@, 0);
            }
            match find(h, c.as_slice(), a + o.len()) {
                Some(b) => {
                    proof {
                        lemma_find_from_found(h@, c@, a + o@.len());
                    }
                    copy_range(h, a + o.len(), b)
                },
                None => Vec::new(),
            }
        },
        None => Vec::new(),
    }
}

/// Whitespace that may surround a flag value.
pub open spec fn is_space(b: u8) -> bool {
    b == SPACE || b == TAB || b == LF || b == 11 || b == 12 || b == 13
}

/// The bytes of `s` that are not whitespace, in order.
pub open spec fn non_space(s: Seq<u8>) -> Seq<u8>
    decreases s.len(),
{
    if s.len() == 0 {
        Seq::empty()
    } else if is_space(s.last()) {
        non_space(s.drop_last())
    } else {
        non_space(s.drop_last()).push(s.last())
    }
}

/// Whether `s` is the single byte `c` with only whitespace around it.
pub open spec fn is_flag(s: Seq<u8>, c: u8) -> bool {
    !is_space(c) && non_space(s) == seq![c]
}

/// Whether `s` is the single byte `c` with only whitespace around it.
pub fn flag_equals(s: &[u8], c: u8) -> (r: bool)
    ensures
        r == is_flag(s@, c),
{
    if c == SPACE || c == TAB || c == LF || c == 11 || c == 12 || c == 13 {
        return false;
    }
    let mut count: usize = 0;
    let mut first: u8 = 0;
    let mut i: usize = 0;
    while i < s.len()
        invariant
            i <= s@.len(),
            count == non_space(s@.subrange(0, i as int)).len(),
            count <= i,
            count >= 1 ==> first == non_space(s@.subrange(0, i as int))[0],
        decreases s@.len() - i,
    {
        let b = s[i];
        proof {
            assert(s@.subrange(0, i + 1).drop_last() =~= s@.subrange(0, i as int));
        }
        if !(b == SPACE || b == TAB || b == LF || b == 11 || b == 12 || b == 13) {
            if count == 0 {
                first = b;
            }
            count = count + 1;
        }
        i = i + 1;
    }
    assert(s@.subrange(0, i as int) =~= s@);
    if count == 1 && first == c {
        assert(non_space(s@) =~= seq![c]);
        true
    } else {
        false
    }
}

/// `s` without its leading spaces and tabs.
pub open spec fn strip_indent(s: Seq<u8>) -> Seq<u8>
    decreases s.len(),
{
    if s.len() > 0 && (s[0] == SPACE || s[0] == TAB) {
        strip_indent(s.drop_first())
    } else {
        s
    }
}

/// The value of a `key=value` line: what follows `key` once the line's
/// indentation is removed, if the line starts with `key`.
pub open spec fn line_value(line: Seq<u8>, key: Seq<u8>) -> Option<Seq<u8>> {
    let t = strip_indent(line);
    if t.len() >= key.len() && t.subrange(0, key.len() as int) == key {
        Some(t.subrange(key.len() as int, t.len() as int))
    } else {
        None
    }
}

/// The value of a `key=value` line, if the line carries `key`.
pub fn line_value_exec(line: &[u8], key: &[u8]) -> (r: Option<Vec<u8>>)
    ensures
        match r {
            Some(v) => line_value(line@, key@) == Some(v@),
            None => line_value(line@, key@) is None,
        },
{
    let mut k: usize = 0;
    assert(line@.subrange(0, line@.len() as int) =~= line@);
    while k < line.len() && (line[k] == SPACE || line[k] == TAB)
        invariant
            k <= line@.len(),
            strip_indent(line@) == strip_indent(line@.subrange(k as int, line@.len() as int)),
        decreases line@.len() - k,
    {
        assert(line@.subrange(k as int, line@.len() as int).drop_first()
            =~= line@.subrange(k + 1, line@.len() as int));
        k = k + 1;
    }
    let t = copy_range(line, k, line.len());
    assert(strip_indent(t@) == t@);
    if t.len() >= key.len() && matches_exec(t.as_slice(), key, 0) {
        assert(t@.subrange(0, key@.len() as int) == key@);
        Some(copy_range(t.as_slice(), key.len(), t.len()))
    } else {
        proof {
            if t@.len() >= key@.len() {
                assert(!matches_at(t@, key@, 0));
            }
        }
        None
    }
}

/// The end of the line that starts at `i`: its line feed, or the end of `h`.
pub open spec fn line_end(h: Seq<u8>, i: int) -> int {
    match find_from(h, seq![LF], i) {
        Some(e) => e,
        None => h.len() as int,
    }
}

/// The value of the last line from `i` on that carries `key`.
pub open spec fn last_value(h: Seq<u8>, key: Seq<u8>, i: int) -> Option<Seq<u8>>
    decreases h.len() - i via last_value_decreases
{
    if i < 0 || i >= h.len() {
        None
    } else {
        let e = line_end(h, i);
        let rest = if e < h.len() {
            last_value(h, key, e + 1)
        } else {
            None
        };
        match rest {
            Some(v) => Some(v),
            None => line_value(h.subrange(i, e), key),
        }
    }
}

#[via_fn]
proof fn last_value_decreases(h: Seq<u8>, key: Seq<u8>, i: int) {
    if 0 <= i < h.len() {
        lemma_line_end(h, i);
    }
}

/// A line's end lies between its start and the end of the text.
pub proof fn lemma_line_end(h: Seq<u8>, i: int)
    requires
        0 <= i < h.len(),
    ensures
        i <= line_end(h, i) <= h.len(),
{
    lemma_find_from_found(h, seq![LF], i);
}

/// The value of the last line of `h` that carries `key`.
pub fn last_line_value(h: &[u8], key: &[u8]) -> (r: Option<Vec<u8>>)
    ensures
        match r {
            Some(v) => last_value(h@, key@, 0) == Some(v@),
            None => last_value(h@, key@, 0) is None,
        },
{
    let lf: [u8; 1] = [LF];
    assert(lf@ =~= seq![LF]);
    let mut found: Option<Vec<u8>> = None;
    let mut i: usize = 0;
    while i < h.len()
        invariant
            i <= h@.len(),
            lf@ == seq![LF],
            last_value(h@, key@, 0) == match last_value(h@, key@, i as int) {
                Some(v) => Some(v),
                None => match found {
                    Some(f) => Some(f@),
                    None => None,
                },
            },
        decreases h@.len() - i,
    {
        proof {
            lemma_line_end(h@, i as int);
        }
        let e: usize = match find(h, lf.as_slice(), i) {
            Some(e) => e,
            None => h.len(),
        };
        let line = copy_range(h, i, e);
        match line_value_exec(line.as_slice(), key) {
            Some(v) => {
                found = Some(v);
            },
            None => {},
        }
        if e < h.len() {
            i = e + 1;
        } else {
            i = h.len();
        }
    }
    found
}

} // verus!
