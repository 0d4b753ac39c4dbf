use vstd::prelude::*;
use vstd::string::*;

verus! {

/// The pieces of `s` between newline characters, in order: one more piece
/// than `s` has newlines.
pub open spec fn lines_of(s: Seq<char>) -> Seq<Seq<char>>
    decreases s.len(),
{
    if s.len() == 0 {
        seq![Seq::empty()]
    } else {
        let ls = lines_of(s.drop_last());
        if s.last() == '\n' {
            ls.push(Seq::empty())
        } else {
            ls.update(ls.len() - 1, ls.last().push(s.last()))
        }
    }
}

pub open spec fn strings_view(v: Seq<String>) -> Seq<Seq<char>> {
    v.map_values(|s: String| s@)
}

/// Splits a text at its newline characters, as `str::split('\n')` does.
pub(crate) fn split_lines(s: &str) -> (r: Vec<String>)
    ensures
        strings_view(r@) == lines_of(s@),
{
    let n = s.unicode_len();
    let mut out: Vec<String> = Vec::new();
    let mut start: usize = 0;
    let mut i: usize = 0;
    proof {
        assert(s@.subrange(0, 0) =~= Seq::<char>::empty());
        assert(strings_view(out@).push(s@.subrange(0, 0)) =~= lines_of(s@.subrange(0, 0)));
    }
    while i < n
        invariant
            n == s@.len(),
            start <= i <= n,
            strings_view(out@).push(s@.subrange(start as int, i as int)) == lines_of(s@.subrange(0, i as int)),
        decreases n - i,
    {
        let ghost prev = strings_view(out@);
        let ghost pre = s@.subrange(0, i + 1);
        let ghost st = start;
        proof {
            assert(pre.drop_last() =~= s@.subrange(0, i as int));
            assert(pre.last() == s@[i as int]);
        }
        if s.get_char(i) == '\n' {
            let line = String::from_str(s.substring_char(start, i));
            out.push(line);
            start = i + 1;
            proof {
                assert(strings_view(out@) =~= prev.push(s@.subrange(st as int, i as int)));
                assert(s@.subrange(i + 1, i + 1) =~= Seq::<char>::empty());
                assert(lines_of(pre) == lines_of(pre.drop_last()).push(Seq::empty()));
                assert(strings_view(out@).push(s@.subrange(i + 1, i + 1)) =~= lines_of(pre));
            }
        } else {
            proof {
                let ls = lines_of(pre.drop_last());
                assert(s@.subrange(start as int, i + 1) =~= s@.subrange(start as int, i as int).push(s@[i as int]));
                assert(lines_of(pre) == ls.update(ls.len() - 1, ls.last().push(pre.last())));
                assert(prev.push(s@.subrange(start as int, i + 1)) =~= lines_of(pre));
            }
        }
        i = i + 1;
    }
    proof {
        assert(s@.subrange(0, n as int) =~= s@);
    }
    out.push(String::from_str(s.substring_char(start, n)));
    proof {
        assert(strings_view(out@) =~= strings_view(out@).drop_last().push(s@.subrange(start as int, n as int)));
    }
    out
}

/// Unicode White_Space, the characters that `str::trim` removes.
pub open spec fn is_white_space(c: char) -> bool {
    let v = c as u32;
    (9 <= v <= 13) || v == 0x20 || v == 0x85 || v == 0xa0 || v == 0x1680 || (0x2000 <= v <= 0x200a)
        || v == 0x2028 || v == 0x2029 || v == 0x202f || v == 0x205f || v == 0x3000
}

pub open spec fn trim_start_of(s: Seq<char>) -> Seq<char>
    decreases s.len(),
{
    if s.len() > 0 && is_white_space(s[0]) {
        trim_start_of(s.subrange(1, s.len() as int))
    } else {
        s
    }
}

pub open spec fn trim_end_of(s: Seq<char>) -> Seq<char>
    decreases s.len(),
{
    if s.len() > 0 && is_white_space(s.last()) {
        trim_end_of(s.drop_last())
    } else {
        s
    }
}

/// `s` without the white space at its start and at its end.
pub open spec fn trim_of(s: Seq<char>) -> Seq<char> {
    trim_end_of(trim_start_of(s))
}

/// Relies on str::trim: leading and trailing Unicode White_Space removed.
#[verifier::external_body]
fn trim_text(s: &str) -> (r: String)
    ensures
        r@ == trim_of(s@),
{
    s.trim().to_string()
}

/// A delimiter line of the front matter: exactly "---".
pub open spec fn is_delimiter(s: Seq<char>) -> bool {
    s.len() == 3 && s[0] == '-' && s[1] == '-' && s[2] == '-'
}

/// Whether a line is the front-matter delimiter "---".
pub fn is_marker_line(s: &str) -> (r: bool)
    ensures
        r == is_delimiter(s@),
{
    s.unicode_len() == 3 && s.get_char(0) == '-' && s.get_char(1) == '-' && s.get_char(2) == '-'
}

pub open spec fn starts_with_local(s: Seq<char>) -> bool {
    s.len() >= 2 && s[0] == '.' && s[1] == '/'
}

/// Whether a path starts with "./", the prefix of a local image.
pub fn is_local_path(s: &str) -> (r: bool)
    ensures
        r == starts_with_local(s@),
{
    let n = s.unicode_len();
    n >= 2 && s.get_char(0) == '.' && s.get_char(1) == '/'
}

/// Number of delimiter lines among the first `n` lines.
pub open spec fn markers_before(ls: Seq<Seq<char>>, n: int) -> nat
    decreases n,
{
    if n <= 0 {
        0
    } else {
        markers_before(ls, n - 1) + if is_delimiter(ls[n - 1]) { 1nat } else { 0nat }
    }
}

/// The front matter within the first `n` lines: the lines strictly between
/// the first and the second delimiter, each followed by a newline.
pub open spec fn front_of(ls: Seq<Seq<char>>, n: int) -> Seq<char>
    decreases n,
{
    if n <= 0 {
        Seq::empty()
    } else if !is_delimiter(ls[n - 1]) && markers_before(ls, n - 1) == 1 {
        front_of(ls, n - 1) + ls[n - 1] + seq!['\n']
    } else {
        front_of(ls, n - 1)
    }
}

/// The body within the first `n` lines: every line after the second
/// delimiter, as written (later "---" lines included), each followed by a
/// newline.
pub open spec fn body_of(ls: Seq<Seq<char>>, n: int) -> Seq<char>
    decreases n,
{
    if n <= 0 {
        Seq::empty()
    } else if markers_before(ls, n - 1) >= 2 {
        body_of(ls, n - 1) + ls[n - 1] + seq!['\n']
    } else {
        body_of(ls, n - 1)
    }
}

/// Whether a document has the two delimiter lines that enclose front matter.
pub open spec fn has_front_matter(doc: Seq<char>) -> bool {
    markers_before(lines_of(doc), lines_of(doc).len() as int) >= 2
}

/// Splits a document into its front matter and its body. Lines before the
/// first delimiter are ignored; a document without two delimiters has no
/// front matter, and gives `None`.
pub fn split_front_matter(doc: &str) -> (r: Option<(String, String)>)
    ensures
        r is Some <==> has_front_matter(doc@),
        r matches Some(p) ==> ({
            let ls = lines_of(doc@);
            p.0@ == front_of(ls, ls.len() as int) && p.1@ == body_of(ls, ls.len() as int)
        }),
{
    let lines = split_lines(doc);
    let ghost ls = lines_of(doc@);
    let mut front = String::new();
    let mut body = String::new();
    let mut count: usize = 0;
    let mut i: usize = 0;
    while i < lines.len()
        invariant
            ls == strings_view(lines@),
            i <= lines@.len(),
            count == markers_before(ls, i as int),
            count <= i,
            front@ == front_of(ls, i as int),
            body@ == body_of(ls, i as int),
        decreases lines@.len() - i,
    {
        let line = lines[i].as_str();
        if count >= 2 {
            body.append(line);
            body.append("\n");
            if is_marker_line(line) {
                count = count + 1;
            }
        } else if is_marker_line(line) {
            count = count + 1;
        } else if count == 1 {
            front.append(line);
            front.append("\n");
        }
        proof {
            reveal_strlit("\n");
        }
        i = i + 1;
    }
    if count < 2 {
        return None;
    }
    Some((front, body))
}

/// The first `n` lines, each trimmed, concatenated with no separator.
pub open spec fn trimmed_concat(ls: Seq<Seq<char>>, n: int) -> Seq<char>
    decreases n,
{
    if n <= 0 {
        Seq::empty()
    } else {
        trimmed_concat(ls, n - 1) + trim_of(ls[n - 1])
    }
}

/// Collapses a page: every line is trimmed and the lines are joined with no
/// separator.
pub fn collapse_lines(s: &str) -> (r: String)
    ensures
        r@ == trimmed_concat(lines_of(s@), lines_of(s@).len() as int),
{
    let lines = split_lines(s);
    let ghost ls = lines_of(s@);
    let mut out = String::new();
    let mut i: usize = 0;
    while i < lines.len()
        invariant
            ls == strings_view(lines@),
            i <= lines@.len(),
            out@ == trimmed_concat(ls, i as int),
        decreases lines@.len() - i,
    {
        let t = trim_text(lines[i].as_str());
        out.append(t.as_str());
        i = i + 1;
    }
    out
}

/// `s` without the '/' characters at its end.
pub open spec fn strip_trailing_slashes(s: Seq<char>) -> Seq<char>
    decreases s.len(),
{
    if s.len() > 0 && s.last() == '/' {
        strip_trailing_slashes(s.drop_last())
    } else {
        s
    }
}

/// Removes the '/' characters at the end of a path.
pub fn trim_end_slashes(s: &str) -> (r: String)
    ensures
        r@ == strip_trailing_slashes(s@),
{
    let mut n = s.unicode_len();
    proof {
        assert(s@.subrange(0, n as int) =~= s@);
    }
    while n > 0 && s.get_char(n - 1) == '/'
        invariant
            n <= s@.len(),
            strip_trailing_slashes(s@) == strip_trailing_slashes(s@.subrange(0, n as int)),
        decreases n,
    {
        proof {
            assert(s@.subrange(0, n as int).drop_last() =~= s@.subrange(0, n - 1));
        }
        n = n - 1;
    }
    String::from_str(s.substring_char(0, n))
}

/// `s` without a leading "./".
pub open spec fn without_local_prefix(s: Seq<char>) -> Seq<char> {
    if starts_with_local(s) {
        s.subrange(2, s.len() as int)
    } else {
        s
    }
}

/// Removes a leading "./" from a path.
pub fn strip_local_prefix(s: &str) -> (r: String)
    ensures
        r@ == without_local_prefix(s@),
{
    if is_local_path(s) {
        String::from_str(s.substring_char(2, s.unicode_len()))
    } else {
        String::from_str(s)
    }
}

} // verus!
