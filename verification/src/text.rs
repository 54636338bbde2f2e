//! Escaping file names: characters that file systems refuse in a path
//! component are replaced by their full-width counterparts, which look the
//! same but are plain letters to the file system.

use vstd::prelude::*;
use vstd::string::StrSliceExecFns;
use vstd::string::StringExecFns;

verus! {

/// Relies on `char::from_u32`: returns the scalar value as a `char` exactly
/// when it is a Unicode scalar value (not a surrogate, at most 0x10FFFF).
pub assume_specification [ char::from_u32 ](v: u32) -> (r: Option<char>)
    ensures
        (r is Some) <==> (v < 0xD800 || (0xE000 <= v && v <= 0x10FFFF)),
        r is Some ==> r->0 as u32 == v,
;

/// Relies on `String`'s `FromIterator<char>`: collects the characters in
/// order into a string.
#[verifier::external_body]
fn chars_to_string(v: Vec<char>) -> (s: String)
    ensures
        s@ == v@,
{
    String::from_iter(v)
}

/// The distance from an ASCII character to its full-width counterpart:
/// `'？' as u32 - '?' as u32`.
pub open spec fn full_width_offset() -> u32 {
    0xFEE0
}

/// The characters a path component may not hold.
pub open spec fn is_path_forbidden(c: char) -> bool {
    c == '\\' || c == '/' || c == ':' || c == '*' || c == '?' || c == '"' || c == '<' || c == '>'
        || c == '|'
}

/// A forbidden character's replacement: the full-width form; any other
/// character stands unchanged.
pub open spec fn escape_char(c: char) -> char {
    match c {
        '\\' => '＼',
        '/' => '／',
        ':' => '：',
        '*' => '＊',
        '?' => '？',
        '"' => '＂',
        '<' => '＜',
        '>' => '＞',
        '|' => '｜',
        _ => c,
    }
}

/// Escaping never leaves a forbidden character behind: the full-width
/// replacements are themselves ordinary characters.
pub proof fn lemma_escape_char_never_forbidden(c: char)
    ensures
        !is_path_forbidden(escape_char(c)),
{
}

/// The character shifted into the full-width block: its scalar value plus
/// `0xFEE0`.
pub fn to_full_width_char(c: char) -> (r: char)
    requires
        c as u32 + full_width_offset() <= 0x10FFFF,
    ensures
        r as u32 == c as u32 + full_width_offset(),
{
    char::from_u32(c as u32 + 0xFEE0).unwrap()
}

/// The directory a comic is saved under: its title and author, joined.
pub fn comic_dir_name(title: &str, author: &str) -> (r: String)
    ensures
        r@ == title@ + " - "@ + author@,
{
    let mut s = title.to_owned();
    s.append(" - ");
    s.append(author);
    s
}

/// The label a downloading episode is shown under: the episode's title,
/// then the comic's title and author.
pub fn episode_label(ep_title: &str, title: &str, author: &str) -> (r: String)
    ensures
        r@ == ep_title@ + " of "@ + title@ + " - "@ + author@,
{
    let mut s = ep_title.to_owned();
    s.append(" of ");
    s.append(title);
    s.append(" - ");
    s.append(author);
    s
}

/// Everything after the last `'/'` of a sequence: the whole sequence when
/// it has none.
pub open spec fn tail_after_last_slash(s: Seq<char>) -> Seq<char>
    decreases s.len(),
{
    if s.len() == 0 {
        s
    } else if s.last() == '/' {
        Seq::empty()
    } else {
        tail_after_last_slash(s.drop_last()).push(s.last())
    }
}

/// Where the last `'/'` stands at `j` with nothing but other characters
/// after it, the tail is exactly what follows it.
proof fn lemma_tail_from_last_slash(s: Seq<char>, j: int)
    requires
        0 <= j < s.len(),
        s[j] == '/',
        forall|k: int| j < k < s.len() ==> s[k] != '/',
    ensures
        tail_after_last_slash(s) == s.subrange(j + 1, s.len() as int),
    decreases s.len(),
{
    if j == s.len() - 1 {
        assert(tail_after_last_slash(s) =~= s.subrange(j + 1, s.len() as int));
    } else {
        assert(forall|k: int| 0 <= k < s.drop_last().len() ==> s.drop_last()[k] == s[k]);
        lemma_tail_from_last_slash(s.drop_last(), j);
        assert(tail_after_last_slash(s) =~= s.subrange(j + 1, s.len() as int));
    }
}

/// Without any `'/'`, the tail is the whole sequence.
proof fn lemma_tail_without_slash(s: Seq<char>)
    requires
        forall|k: int| 0 <= k < s.len() ==> s[k] != '/',
    ensures
        tail_after_last_slash(s) == s,
    decreases s.len(),
{
    if s.len() == 0 {
    } else {
        assert(forall|k: int| 0 <= k < s.drop_last().len() ==> s.drop_last()[k] == s[k]);
        lemma_tail_without_slash(s.drop_last());
        assert(tail_after_last_slash(s) =~= s);
    }
}

/// The last path segment of a URL: everything after the last `'/'`, or the
/// whole URL when it has none.
pub fn url_tail(url: &str) -> (r: String)
    ensures
        r@ == tail_after_last_slash(url@),
{
    let n = url.unicode_len();
    let mut i: usize = n;
    while i > 0
        invariant
            n == url@.len(),
            i <= n,
            forall|k: int| i <= k < n ==> url@[k] != '/',
        decreases i,
    {
        i = i - 1;
        if url.get_char(i) == '/' {
            let mut out: Vec<char> = Vec::new();
            let mut m: usize = i + 1;
            while m < n
                invariant
                    n == url@.len(),
                    i < m <= n,
                    out@ == url@.subrange(i + 1, m as int),
                decreases n - m,
            {
                out.push(url.get_char(m));
                proof {
                    assert(out@ =~= url@.subrange(i + 1, m + 1 as int));
                }
                m = m + 1;
            }
            let r = chars_to_string(out);
            proof {
                lemma_tail_from_last_slash(url@, i as int);
            }
            return r;
        }
    }
    proof {
        lemma_tail_without_slash(url@);
    }
    url.to_owned()
}

/// The file-name extension a download URL carries: everything after the
/// last `'.'`. `None` when the URL has no `'.'` at all.
pub fn url_extension(url: &str) -> (r: Option<String>)
    ensures
        match r {
            Some(ext) => exists|j: int|
                0 <= j < url@.len() && url@[j] == '.' && (forall|k: int|
                    j < k < url@.len() ==> url@[k] != '.') && ext@ == url@.subrange(
                    j + 1,
                    url@.len() as int,
                ),
            None => forall|j: int| 0 <= j < url@.len() ==> url@[j] != '.',
        },
{
    let n = url.unicode_len();
    let mut i: usize = n;
    while i > 0
        invariant
            n == url@.len(),
            i <= n,
            forall|k: int| i <= k < n ==> url@[k] != '.',
        decreases i,
    {
        i = i - 1;
        if url.get_char(i) == '.' {
            let mut out: Vec<char> = Vec::new();
            let mut m: usize = i + 1;
            while m < n
                invariant
                    n == url@.len(),
                    i < m <= n,
                    out@ == url@.subrange(i + 1, m as int),
                decreases n - m,
            {
                out.push(url.get_char(m));
                proof {
                    assert(out@ =~= url@.subrange(i + 1, m + 1 as int));
                }
                m = m + 1;
            }
            return Some(chars_to_string(out));
        }
    }
    None
}

/// Every character of the path that a file system refuses is replaced by its
/// full-width counterpart; all others stand unchanged.
pub fn path_escape(path: &str) -> (r: String)
    ensures
        r@ == path@.map_values(|c: char| escape_char(c)),
        forall|i: int| 0 <= i < r@.len() ==> !is_path_forbidden(#[trigger] r@[i]),
{
    let n = path.unicode_len();
    let mut out: Vec<char> = Vec::new();
    let mut i: usize = 0;
    while i < n
        invariant
            n == path@.len(),
            i <= n,
            out@ == path@.take(i as int).map_values(|c: char| escape_char(c)),
        decreases n - i,
    {
        let c = path.get_char(i);
        let mapped = match c {
            '\\' | '/' | ':' | '*' | '?' | '"' | '<' | '>' | '|' => to_full_width_char(c),
            _ => c,
        };
        proof {
            assert(mapped == escape_char(c));
        }
        out.push(mapped);
        proof {
            assert(out@ =~= path@.take(i + 1 as int).map_values(|c: char| escape_char(c)));
        }
        i = i + 1;
    }
    proof {
        assert(path@.take(n as int) =~= path@);
    }
    let r = chars_to_string(out);
    proof {
        assert forall|i: int| 0 <= i < r@.len() implies !is_path_forbidden(r@[i]) by {
            assert(r@[i] == escape_char(path@[i]));
            lemma_escape_char_never_forbidden(path@[i]);
        }
    }
    r
}

} // verus!
