//! Verified helpers on strings: decimal rendering, whitespace and
//! indentation, prefix tests, and the string form of path joining and
//! prefix stripping that the path resolver builds on.

use vstd::prelude::*;

verus! {

/// The digit character for one decimal digit.
pub open spec fn digit_char(d: int) -> char {
    if d == 0 {
        '0'
    } else if d == 1 {
        '1'
    } else if d == 2 {
        '2'
    } else if d == 3 {
        '3'
    } else if d == 4 {
        '4'
    } else if d == 5 {
        '5'
    } else if d == 6 {
        '6'
    } else if d == 7 {
        '7'
    } else if d == 8 {
        '8'
    } else {
        '9'
    }
}

/// The decimal rendering of a non-negative integer, most significant digit
/// first.
pub open spec fn dec_str(n: int) -> Seq<char>
    decreases n,
{
    if n < 10 {
        seq![digit_char(n)]
    } else {
        dec_str(n / 10) + seq![digit_char(n % 10)]
    }
}

fn digit_str(d: usize) -> (r: &'static str)
    requires
        d < 10,
    ensures
        r@ == seq![digit_char(d as int)],
{
    let s: &'static str = match d {
        0 => "0",
        1 => "1",
        2 => "2",
        3 => "3",
        4 => "4",
        5 => "5",
        6 => "6",
        7 => "7",
        _ => "9",
    };
    let s = if d == 8 {
        "8"
    } else {
        s
    };
    proof {
        reveal_strlit("0");
        reveal_strlit("1");
        reveal_strlit("2");
        reveal_strlit("3");
        reveal_strlit("4");
        reveal_strlit("5");
        reveal_strlit("6");
        reveal_strlit("7");
        reveal_strlit("8");
        reveal_strlit("9");
        assert(s@ =~= seq![digit_char(d as int)]);
    }
    s
}

/// Renders a line number (or any unsigned count) in decimal.
pub fn usize_to_string(n: usize) -> (r: String)
    ensures
        r@ == dec_str(n as int),
    decreases n,
{
    if n < 10 {
        String::from_str(digit_str(n))
    } else {
        let mut s = usize_to_string(n / 10);
        s.append(digit_str(n % 10));
        s
    }
}

/// Whether `c` has Unicode's `White_Space` property, the set of characters
/// `char::is_whitespace` accepts.
pub open spec fn is_ws_char(c: char) -> bool {
    ||| c == ' '
    ||| c == '\t'
    ||| c == '\n'
    ||| c == '\u{0B}'
    ||| c == '\u{0C}'
    ||| c == '\r'
    ||| c == '\u{85}'
    ||| c == '\u{A0}'
    ||| c == '\u{1680}'
    ||| (0x2000 <= c as int && c as int <= 0x200A)
    ||| c == '\u{2028}'
    ||| c == '\u{2029}'
    ||| c == '\u{202F}'
    ||| c == '\u{205F}'
    ||| c == '\u{3000}'
}

/// Decides `is_ws_char`.
pub fn is_whitespace_char(c: char) -> (r: bool)
    ensures
        r == is_ws_char(c),
{
    c == ' ' || c == '\t' || c == '\n' || c == '\u{0B}' || c == '\u{0C}' || c == '\r' || c
        == '\u{85}' || c == '\u{A0}' || c == '\u{1680}' || (0x2000 <= c as u32 && c as u32
        <= 0x200A) || c == '\u{2028}' || c == '\u{2029}' || c == '\u{202F}' || c == '\u{205F}' || c
        == '\u{3000}'
}

/// The number of leading whitespace characters of a line; tabs and spaces
/// both count as one unit each.
pub open spec fn indent_of(s: Seq<char>) -> int
    decreases s.len(),
{
    if s.len() == 0 || !is_ws_char(s[0]) {
        0
    } else {
        1 + indent_of(s.drop_first())
    }
}

fn indent_rec(line: &str, i: usize) -> (r: usize)
    requires
        i <= line@.len(),
    ensures
        r == i + indent_of(line@.skip(i as int)),
    decreases line@.len() - i,
{
    let len = line.unicode_len();
    if i >= len {
        proof {
            assert(line@.skip(i as int).len() == 0);
        }
        i
    } else {
        let c = line.get_char(i);
        if is_whitespace_char(c) {
            proof {
                assert(line@.skip(i as int).drop_first() =~= line@.skip(i as int + 1));
            }
            indent_rec(line, i + 1)
        } else {
            i
        }
    }
}

/// Measures the indentation width of a raw line.
pub fn indent_width(line: &str) -> (r: usize)
    ensures
        r == indent_of(line@),
{
    proof {
        assert(line@.skip(0) =~= line@);
    }
    indent_rec(line, 0)
}

/// Decides string equality by contents.
pub fn str_eq(a: &str, b: &str) -> (r: bool)
    ensures
        r == (a@ == b@),
{
    let sa = String::from_str(a);
    let sb = String::from_str(b);
    sa == sb
}

/// `p` is a prefix of `s`.
pub open spec fn has_prefix(s: Seq<char>, p: Seq<char>) -> bool {
    p.len() <= s.len() && s.subrange(0, p.len() as int) == p
}

/// Decides `has_prefix`.
pub fn str_has_prefix(s: &str, p: &str) -> (r: bool)
    ensures
        r == has_prefix(s@, p@),
{
    let sl = s.unicode_len();
    let pl = p.unicode_len();
    if pl > sl {
        return false;
    }
    let head = s.substring_char(0, pl);
    str_eq(head, p)
}

/// An absolute path: one that starts at the filesystem root.
pub open spec fn is_abs_path(s: Seq<char>) -> bool {
    s.len() > 0 && s[0] == '/'
}

/// Decides `is_abs_path`.
pub fn str_is_absolute(s: &str) -> (r: bool)
    ensures
        r == is_abs_path(s@),
{
    if s.unicode_len() == 0 {
        return false;
    }
    s.get_char(0) == '/'
}

/// Joining a relative path onto a base: the base, one separator, the rest.
pub open spec fn join_path(base: Seq<char>, rest: Seq<char>) -> Seq<char> {
    base + seq!['/'] + rest
}

/// Joins a relative path onto a base path.
pub fn join_path_str(base: &str, rest: &str) -> (r: String)
    ensures
        r@ == join_path(base@, rest@),
{
    let mut s = String::from_str(base);
    s.append("/");
    s.append(rest);
    proof {
        reveal_strlit("/");
        assert(s@ =~= join_path(base@, rest@));
    }
    s
}

/// The remainder of `p` after a strict path prefix `root`: defined exactly
/// when `p` is longer than `root`, starts with `root`, and a separator
/// follows; the remainder is what stands after that separator.
pub open spec fn strip_path(p: Seq<char>, root: Seq<char>) -> Option<Seq<char>> {
    if p.len() > root.len() + 1 && p.subrange(0, root.len() as int) == root && p[root.len() as int]
        == '/' {
        Some(p.skip(root.len() + 1 as int))
    } else {
        None
    }
}

/// Strips a strict path prefix, or reports that `p` does not lie under
/// `root`.
pub fn strip_path_prefix(p: &str, root: &str) -> (r: Option<String>)
    ensures
        match r {
            Some(rest) => strip_path(p@, root@) == Some(rest@),
            None => strip_path(p@, root@) is None,
        },
{
    let pl = p.unicode_len();
    let rl = root.unicode_len();
    if pl <= rl {
        return None;
    }
    if pl == rl + 1 {
        return None;
    }
    let head = p.substring_char(0, rl);
    if !str_eq(head, root) {
        return None;
    }
    if p.get_char(rl) != '/' {
        return None;
    }
    let rest = p.substring_char(rl + 1, pl);
    proof {
        assert(p@.subrange(rl + 1, pl as int) =~= p@.skip(rl + 1));
    }
    Some(String::from_str(rest))
}

/// The first index of `c` in `s`, or `-1` when `c` does not occur.
pub open spec fn first_pos(s: Seq<char>, c: char) -> int
    decreases s.len(),
{
    if s.len() == 0 {
        -1
    } else if s[0] == c {
        0
    } else {
        let r = first_pos(s.drop_first(), c);
        if r == -1 {
            -1
        } else {
            r + 1
        }
    }
}

/// The last index of `c` in `s`, or `-1` when `c` does not occur.
pub open spec fn last_pos(s: Seq<char>, c: char) -> int
    decreases s.len(),
{
    if s.len() == 0 {
        -1
    } else if s.last() == c {
        s.len() - 1
    } else {
        last_pos(s.drop_last(), c)
    }
}

fn first_pos_rec(s: &str, c: char, i: usize) -> (r: Option<usize>)
    requires
        i <= s@.len(),
    ensures
        match r {
            Some(j) => i + first_pos(s@.skip(i as int), c) == j && first_pos(s@.skip(i as int), c)
                >= 0,
            None => first_pos(s@.skip(i as int), c) == -1,
        },
    decreases s@.len() - i,
{
    let len = s.unicode_len();
    if i >= len {
        proof {
            assert(s@.skip(i as int).len() == 0);
        }
        None
    } else {
        proof {
            assert(s@.skip(i as int).drop_first() =~= s@.skip(i as int + 1));
        }
        if s.get_char(i) == c {
            Some(i)
        } else {
            first_pos_rec(s, c, i + 1)
        }
    }
}

/// Finds the first occurrence of a character.
pub fn str_first_pos(s: &str, c: char) -> (r: Option<usize>)
    ensures
        match r {
            Some(j) => first_pos(s@, c) == j,
            None => first_pos(s@, c) == -1,
        },
{
    proof {
        assert(s@.skip(0) =~= s@);
    }
    first_pos_rec(s, c, 0)
}

fn last_pos_rec(s: &str, c: char, i: usize) -> (r: Option<usize>)
    requires
        i <= s@.len(),
    ensures
        match r {
            Some(j) => last_pos(s@.take(i as int), c) == j,
            None => last_pos(s@.take(i as int), c) == -1,
        },
    decreases i,
{
    if i == 0 {
        proof {
            assert(s@.take(0).len() == 0);
        }
        None
    } else {
        proof {
            assert(s@.take(i as int).last() == s@[i - 1]);
            assert(s@.take(i as int).drop_last() =~= s@.take(i - 1));
        }
        if s.get_char(i - 1) == c {
            Some(i - 1)
        } else {
            last_pos_rec(s, c, i - 1)
        }
    }
}

/// Finds the last occurrence of a character.
pub fn str_last_pos(s: &str, c: char) -> (r: Option<usize>)
    ensures
        match r {
            Some(j) => last_pos(s@, c) == j,
            None => last_pos(s@, c) == -1,
        },
{
    let len = s.unicode_len();
    proof {
        assert(s@.take(len as int) =~= s@);
    }
    last_pos_rec(s, c, len)
}

/// The pieces of `s` between its separators: splitting on `/`.
pub open spec fn split_slash(s: Seq<char>) -> Seq<Seq<char>>
    decreases s.len(),
{
    let f = first_pos(s, '/');
    if f < 0 || f >= s.len() {
        seq![s]
    } else {
        seq![s.take(f)] + split_slash(s.skip(f + 1))
    }
}

proof fn lemma_first_pos_in_range(s: Seq<char>, c: char)
    ensures
        first_pos(s, c) == -1 || (0 <= first_pos(s, c) < s.len()),
    decreases s.len(),
{
    if s.len() > 0 && s[0] != c {
        lemma_first_pos_in_range(s.drop_first(), c);
    }
}

proof fn lemma_last_pos_in_range(s: Seq<char>, c: char)
    ensures
        last_pos(s, c) == -1 || (0 <= last_pos(s, c) < s.len()),
    decreases s.len(),
{
    if s.len() > 0 && s.last() != c {
        lemma_last_pos_in_range(s.drop_last(), c);
    }
}

/// Splits a path into its separator-delimited components.
pub fn split_slash_str(s: &str) -> (r: Vec<String>)
    ensures
        r.deep_view() == split_slash(s@),
    decreases s@.len(),
{
    proof {
        lemma_first_pos_in_range(s@, '/');
    }
    match str_first_pos(s, '/') {
        None => {
            let mut v: Vec<String> = Vec::new();
            v.push(String::from_str(s));
            proof {
                assert(v.deep_view() =~= split_slash(s@));
            }
            v
        },
        Some(f) => {
            let len = s.unicode_len();
            let head = s.substring_char(0, f);
            let tail = s.substring_char(f + 1, len);
            proof {
                assert(tail@ =~= s@.skip(f + 1));
                assert(head@ =~= s@.take(f as int));
            }
            let mut v: Vec<String> = Vec::new();
            v.push(String::from_str(head));
            let mut rest = split_slash_str(tail);
            let ghost hv = v.deep_view();
            let ghost rv = rest.deep_view();
            v.append(&mut rest);
            proof {
                assert(v.deep_view() =~= hv + rv);
                assert(v.deep_view() =~= split_slash(s@));
            }
            v
        },
    }
}

/// The path with the extension of its last component removed: everything
/// before the last dot, provided that dot stands inside the last
/// component and not at its head (a leading dot names a hidden file, not
/// an extension).
pub open spec fn drop_ext(s: Seq<char>) -> Seq<char> {
    let base = last_pos(s, '/') + 1;
    let d = last_pos(s, '.');
    if d > base {
        s.take(d)
    } else {
        s
    }
}

/// Removes the last component's extension, if it has one.
pub fn drop_extension(s: &str) -> (r: String)
    ensures
        r@ == drop_ext(s@),
{
    proof {
        lemma_last_pos_in_range(s@, '/');
        lemma_last_pos_in_range(s@, '.');
    }
    let _len = s.unicode_len();
    let base: usize = match str_last_pos(s, '/') {
        Some(i) => i + 1,
        None => 0,
    };
    let d = str_last_pos(s, '.');
    match d {
        Some(dp) if dp > base => {
            let head = s.substring_char(0, dp);
            proof {
                assert(head@ =~= s@.take(dp as int));
            }
            String::from_str(head)
        },
        _ => String::from_str(s),
    }
}

/// `sub` occurs in `s` starting at index `i`.
pub open spec fn has_sub_at(s: Seq<char>, sub: Seq<char>, i: int) -> bool {
    0 <= i && i + sub.len() <= s.len() && s.subrange(i, i + sub.len()) == sub
}

/// `sub` occurs somewhere in `s`.
pub open spec fn has_substring(s: Seq<char>, sub: Seq<char>) -> bool {
    exists|i: int| has_sub_at(s, sub, i)
}

/// Decides `has_substring`.
pub fn str_contains(s: &str, sub: &str) -> (r: bool)
    ensures
        r == has_substring(s@, sub@),
{
    let sl = s.unicode_len();
    let bl = sub.unicode_len();
    if bl > sl {
        proof {
            assert(forall|i: int| !has_sub_at(s@, sub@, i));
        }
        return false;
    }
    if bl == 0 {
        proof {
            assert(s@.subrange(0, 0) =~= sub@);
            assert(has_sub_at(s@, sub@, 0));
        }
        return true;
    }
    let mut i: usize = 0;
    while i <= sl - bl
        invariant
            1 <= bl <= sl,
            sl == s@.len(),
            bl == sub@.len(),
            i <= sl - bl + 1,
            forall|j: int| 0 <= j < i ==> !has_sub_at(s@, sub@, j),
        decreases sl - bl + 1 - i,
    {
        let piece = s.substring_char(i, i + bl);
        if str_eq(piece, sub) {
            proof {
                assert(has_sub_at(s@, sub@, i as int));
            }
            return true;
        }
        i += 1;
    }
    proof {
        assert(forall|j: int| j > sl - bl ==> !has_sub_at(s@, sub@, j));
    }
    false
}

/// The parts joined with `sep` between neighbours.
pub open spec fn join_sep(parts: Seq<Seq<char>>, sep: Seq<char>) -> Seq<char>
    decreases parts.len(),
{
    if parts.len() == 0 {
        Seq::empty()
    } else if parts.len() == 1 {
        parts[0]
    } else {
        parts[0] + sep + join_sep(parts.drop_first(), sep)
    }
}

proof fn lemma_join_sep_push(parts: Seq<Seq<char>>, sep: Seq<char>, x: Seq<char>)
    ensures
        join_sep(parts.push(x), sep) == if parts.len() == 0 {
            x
        } else {
            join_sep(parts, sep) + sep + x
        },
    decreases parts.len(),
{
    if parts.len() == 0 {
        assert(parts.push(x)[0] == x);
        assert(parts.push(x).len() == 1);
    } else {
        lemma_join_sep_push(parts.drop_first(), sep, x);
        assert(parts.push(x).drop_first() =~= parts.drop_first().push(x));
        if parts.len() == 1 {
            assert(join_sep(parts, sep) == parts[0]);
        }
    }
}

/// Joins the parts with the separator between neighbours.
pub fn join_with(parts: &Vec<String>, sep: &str) -> (r: String)
    ensures
        r@ == join_sep(parts.deep_view(), sep@),
{
    let n = parts.len();
    let mut s = String::new();
    let mut i: usize = 0;
    while i < n
        invariant
            n == parts@.len(),
            i <= n,
            s@ == join_sep(parts.deep_view().take(i as int), sep@),
        decreases n - i,
    {
        if i > 0 {
            s.append(sep);
        }
        s.append(parts[i].as_str());
        proof {
            let dv = parts.deep_view();
            assert(dv.take(i + 1).drop_last() =~= dv.take(i as int));
            assert(dv.take(i + 1) =~= dv.take(i as int).push(dv[i as int]));
            lemma_join_sep_push(dv.take(i as int), sep@, dv[i as int]);
        }
        i += 1;
    }
    proof {
        assert(parts.deep_view().take(n as int) =~= parts.deep_view());
    }
    s
}

/// Stripping what `join_path` put together always gives back the joined
/// remainder: the string half of the path-resolution round trip.
pub proof fn lemma_join_then_strip(base: Seq<char>, rest: Seq<char>)
    requires
        rest.len() > 0,
    ensures
        strip_path(join_path(base, rest), base) == Some(rest),
{
    let p = join_path(base, rest);
    assert(p.subrange(0, base.len() as int) =~= base);
    assert(p[base.len() as int] == '/');
    assert(p.skip(base.len() + 1 as int) =~= rest);
}

/// The other half of the round trip: a path that strips to a remainder is
/// exactly the root with that remainder joined back on.
pub proof fn lemma_strip_then_join(p: Seq<char>, root: Seq<char>)
    requires
        strip_path(p, root) is Some,
    ensures
        p == join_path(root, strip_path(p, root).unwrap()),
{
    let rest = strip_path(p, root).unwrap();
    assert(p =~= root + seq!['/'] + rest);
}

} // verus!
