use vstd::prelude::*;

use crate::ids::{parse_uuid, uuid_parsed};

verus! {

/// What `str::trim` leaves of a text.
pub uninterp spec fn trimmed(s: Seq<char>) -> Seq<char>;

/// Relies on `str::trim`: the result depends on the characters alone.
#[verifier::external_body]
pub(crate) fn trim_text(s: &str) -> (r: String)
    ensures
        r@ == trimmed(s@),
{
    s.trim().to_string()
}

/// The characters of a text, in order.
pub(crate) fn chars_of(s: &str) -> (r: Vec<char>)
    ensures
        r@ == s@,
{
    let n = s.unicode_len();
    let mut out: Vec<char> = Vec::new();
    let mut i: usize = 0;
    while i < n
        invariant
            n == s@.len(),
            i <= n,
            out@ == s@.take(i as int),
        decreases n - i,
    {
        out.push(s.get_char(i));
        assert(out@ =~= s@.take(i as int + 1));
        i = i + 1;
    }
    assert(s@.take(n as int) =~= s@);
    out
}

/// Relies on `String: FromIterator<char>`: the text made of these characters.
#[verifier::external_body]
pub(crate) fn text_from_chars(cs: &Vec<char>) -> (r: String)
    ensures
        r@ == cs@,
{
    cs.iter().collect()
}

pub open spec fn is_separator(c: char) -> bool {
    c == '/' || c == '\\'
}

pub open spec fn sanitize_char(c: char) -> char {
    if is_separator(c) {
        '_'
    } else {
        c
    }
}

/// A file name with every path separator replaced by `_`.
pub open spec fn sanitized(s: Seq<char>) -> Seq<char> {
    s.map_values(|c: char| sanitize_char(c))
}

/// Makes a display file name safe to use as one path component.
pub fn sanitize_filename(name: &str) -> (r: String)
    ensures
        r@ == sanitized(name@),
        r@.len() == name@.len(),
        forall|i: int| 0 <= i < r@.len() ==> !is_separator(#[trigger] r@[i]),
{
    let cs = chars_of(name);
    let mut out: Vec<char> = Vec::new();
    let mut i: usize = 0;
    while i < cs.len()
        invariant
            cs@ == name@,
            i <= cs@.len(),
            out@ == sanitized(cs@.take(i as int)),
        decreases cs@.len() - i,
    {
        let c = cs[i];
        if c == '/' || c == '\\' {
            out.push('_');
        } else {
            out.push(c);
        }
        assert(cs@.take(i as int + 1) == cs@.take(i as int).push(c));
        assert(out@ =~= sanitized(cs@.take(i as int + 1)));
        i = i + 1;
    }
    assert(cs@.take(i as int) == cs@);
    text_from_chars(&out)
}

/// Character-wise equality of two texts.
pub fn same_text(a: &str, b: &str) -> (r: bool)
    ensures
        r == (a@ == b@),
{
    let n = a.unicode_len();
    if n != b.unicode_len() {
        return false;
    }
    let mut i: usize = 0;
    while i < n
        invariant
            n == a@.len(),
            n == b@.len(),
            i <= n,
            forall|k: int| 0 <= k < i ==> a@[k] == b@[k],
        decreases n - i,
    {
        if a.get_char(i) != b.get_char(i) {
            return false;
        }
        i = i + 1;
    }
    assert(a@ =~= b@);
    true
}

/// Two characters are equal once ASCII letters are folded to one case.
pub open spec fn ascii_fold_eq(c: char, d: char) -> bool {
    ||| c == d
    ||| ('A' <= c <= 'Z' && d as u32 == c as u32 + 32)
    ||| ('a' <= c <= 'z' && c as u32 == d as u32 + 32)
}

pub open spec fn eq_ignore_ascii_case(a: Seq<char>, b: Seq<char>) -> bool {
    a.len() == b.len() && forall|i: int| 0 <= i < a.len() ==> ascii_fold_eq(#[trigger] a[i], b[i])
}

fn fold_eq(c: char, d: char) -> (r: bool)
    ensures
        r == ascii_fold_eq(c, d),
{
    c == d || ('A' <= c && c <= 'Z' && d as u32 == c as u32 + 32) || ('a' <= c && c <= 'z'
        && c as u32 == d as u32 + 32)
}

/// Equality of two texts up to the case of ASCII letters.
pub fn same_text_ignore_ascii_case(a: &str, b: &str) -> (r: bool)
    ensures
        r == eq_ignore_ascii_case(a@, b@),
{
    let n = a.unicode_len();
    if n != b.unicode_len() {
        return false;
    }
    let mut i: usize = 0;
    while i < n
        invariant
            n == a@.len(),
            n == b@.len(),
            i <= n,
            forall|k: int| 0 <= k < i ==> ascii_fold_eq(#[trigger] a@[k], b@[k]),
        decreases n - i,
    {
        if !fold_eq(a.get_char(i), b.get_char(i)) {
            return false;
        }
        i = i + 1;
    }
    true
}

/// A form flag is set by `1` or by `true` in any ASCII case, around blanks.
pub open spec fn flag_set(s: Seq<char>) -> bool {
    trimmed(s) == "1"@ || eq_ignore_ascii_case(trimmed(s), "true"@)
}

/// Reads an already trimmed flag text: `1`, or `true` in any ASCII case.
pub fn flag_from_trimmed(t: &str) -> (r: bool)
    ensures
        r == (t@ == "1"@ || eq_ignore_ascii_case(t@, "true"@)),
{
    same_text(t, "1") || same_text_ignore_ascii_case(t, "true")
}

pub fn parse_flag(text: &str) -> (r: bool)
    ensures
        r == flag_set(text@),
{
    let t = trim_text(text);
    flag_from_trimmed(t.as_str())
}

/// The comma-separated fields of a text, read left to right; a text
/// without a comma is one field.
pub open spec fn comma_fields(s: Seq<char>) -> Seq<Seq<char>>
    decreases s.len(),
{
    if s.len() == 0 {
        seq![Seq::<char>::empty()]
    } else {
        let f = comma_fields(s.drop_last());
        if s.last() == ',' {
            f.push(Seq::<char>::empty())
        } else {
            f.drop_last().push(f.last().push(s.last()))
        }
    }
}

/// The identifiers read from a list of fields, each trimmed; fields that do
/// not read as an identifier are skipped.
pub open spec fn ids_of_fields(fs: Seq<Seq<char>>) -> Seq<u128>
    decreases fs.len(),
{
    if fs.len() == 0 {
        Seq::empty()
    } else {
        let rest = ids_of_fields(fs.drop_last());
        match uuid_parsed(trimmed(fs.last())) {
            Some(id) => rest.push(id),
            None => rest,
        }
    }
}

fn parse_field(cur: &Vec<char>, ids: &mut Vec<u128>)
    ensures
        final(ids)@ == match uuid_parsed(trimmed(cur@)) {
            Some(id) => old(ids)@.push(id),
            None => old(ids)@,
        },
{
    let piece = text_from_chars(cur);
    let t = trim_text(piece.as_str());
    match parse_uuid(t.as_str()) {
        Some(id) => ids.push(id),
        None => {},
    }
}

/// Reads a comma-separated list of user identifiers, skipping what does not parse.
pub fn parse_allowed_users(text: &str) -> (r: Vec<u128>)
    ensures
        r@ == ids_of_fields(comma_fields(text@)),
{
    let cs = chars_of(text);
    let mut ids: Vec<u128> = Vec::new();
    let mut cur: Vec<char> = Vec::new();
    let ghost mut done: Seq<Seq<char>> = Seq::empty();
    let mut i: usize = 0;
    while i < cs.len()
        invariant
            cs@ == text@,
            i <= cs@.len(),
            comma_fields(cs@.take(i as int)) == done.push(cur@),
            ids@ == ids_of_fields(done),
        decreases cs@.len() - i,
    {
        let c = cs[i];
        let ghost pre = cs@.take(i as int);
        assert(cs@.take(i as int + 1).drop_last() == pre);
        if c == ',' {
            parse_field(&cur, &mut ids);
            proof {
                assert(done.push(cur@).drop_last() == done);
                done = done.push(cur@);
            }
            cur = Vec::new();
        } else {
            cur.push(c);
            proof {
                assert(done.push(cur@.drop_last()).drop_last() == done);
                assert(cur@.drop_last().push(c) == cur@);
            }
        }
        assert(comma_fields(cs@.take(i as int + 1)) =~= done.push(cur@));
        i = i + 1;
    }
    assert(cs@.take(i as int) == cs@);
    parse_field(&cur, &mut ids);
    proof {
        assert(done.push(cur@).drop_last() == done);
    }
    ids
}

} // verus!
