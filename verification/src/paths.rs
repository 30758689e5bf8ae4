//! Path-string arithmetic shared by discovery, resolution and transfer.
//!
//! Paths are plain `/`-separated strings. The spec functions below give the
//! mathematical meaning of each operation over `Seq<char>`; the executable
//! functions are proved against them.

use vstd::prelude::*;
use vstd::string::*;

verus! {

// ---------------------------------------------------------------------------
// Locating a character in a sequence
// ---------------------------------------------------------------------------

/// Index of the first occurrence of `c` in `s`, if any.
pub open spec fn index_of_first(s: Seq<char>, c: char) -> Option<int>
    decreases s.len(),
{
    if s.len() == 0 {
        None
    } else if s[0] == c {
        Some(0int)
    } else {
        match index_of_first(s.drop_first(), c) {
            Some(i) => Some(i + 1),
            None => None,
        }
    }
}

/// Index of the last occurrence of `c` in `s`, if any.
pub open spec fn index_of_last(s: Seq<char>, c: char) -> Option<int>
    decreases s.len(),
{
    if s.len() == 0 {
        None
    } else if s[s.len() - 1] == c {
        Some(s.len() - 1)
    } else {
        index_of_last(s.drop_last(), c)
    }
}

/// `index_of_first` finds an occurrence and nothing earlier is one.
pub proof fn lemma_index_of_first_is(s: Seq<char>, c: char)
    ensures
        match index_of_first(s, c) {
            Some(i) => 0 <= i < s.len() && s[i] == c && (forall|j: int|
                0 <= j < i ==> s[j] != c),
            None => forall|j: int| 0 <= j < s.len() ==> s[j] != c,
        },
    decreases s.len(),
{
    if s.len() > 0 && s[0] != c {
        lemma_index_of_first_is(s.drop_first(), c);
        match index_of_first(s.drop_first(), c) {
            Some(i) => {
                assert forall|j: int| 0 <= j < i + 1 implies s[j] != c by {
                    if j >= 1 {
                        assert(s[j] == s.drop_first()[j - 1]);
                    }
                }
            },
            None => {
                assert forall|j: int| 0 <= j < s.len() implies s[j] != c by {
                    if j >= 1 {
                        assert(s[j] == s.drop_first()[j - 1]);
                    }
                }
            },
        }
    }
}

/// `index_of_last` finds an occurrence and nothing later is one.
pub proof fn lemma_index_of_last_is(s: Seq<char>, c: char)
    ensures
        match index_of_last(s, c) {
            Some(i) => 0 <= i < s.len() && s[i] == c && (forall|j: int|
                i < j < s.len() ==> s[j] != c),
            None => forall|j: int| 0 <= j < s.len() ==> s[j] != c,
        },
    decreases s.len(),
{
    if s.len() > 0 && s[s.len() - 1] != c {
        lemma_index_of_last_is(s.drop_last(), c);
        match index_of_last(s.drop_last(), c) {
            Some(i) => {
                assert(s[i] == s.drop_last()[i]);
                assert forall|j: int| i < j < s.len() implies s[j] != c by {
                    if j < s.len() - 1 {
                        assert(s[j] == s.drop_last()[j]);
                    }
                }
            },
            None => {
                assert forall|j: int| 0 <= j < s.len() implies s[j] != c by {
                    if j < s.len() - 1 {
                        assert(s[j] == s.drop_last()[j]);
                    }
                }
            },
        }
    }
}

/// First position of `c` in `s`, as executable code.
pub fn find_first(s: &str, c: char) -> (r: Option<usize>)
    ensures
        match r {
            Some(i) => i < s@.len() && index_of_first(s@, c) == Some(i as int),
            None => index_of_first(s@, c) is None,
        },
{
    let len = s.unicode_len();
    let mut i: usize = 0;
    while i < len
        invariant
            i <= len,
            len == s@.len(),
            forall|j: int| 0 <= j < i ==> s@[j] != c,
        decreases len - i,
    {
        if s.get_char(i) == c {
            proof {
                lemma_index_of_first_is(s@, c);
            }
            return Some(i);
        }
        i = i + 1;
    }
    proof {
        lemma_index_of_first_is(s@, c);
    }
    None
}

// ---------------------------------------------------------------------------
// Equality of strings
// ---------------------------------------------------------------------------

/// Character-for-character equality of two string slices.
pub fn str_eq(a: &str, b: &str) -> (r: bool)
    ensures
        r == (a@ == b@),
{
    let la = a.unicode_len();
    let lb = b.unicode_len();
    if la != lb {
        return false;
    }
    let mut i: usize = 0;
    while i < la
        invariant
            i <= la,
            la == a@.len(),
            lb == b@.len(),
            la == lb,
            forall|j: int| 0 <= j < i ==> a@[j] == b@[j],
        decreases la - i,
    {
        if a.get_char(i) != b.get_char(i) {
            return false;
        }
        i = i + 1;
    }
    proof {
        assert(a@ =~= b@);
    }
    true
}

/// Whether some string of `v` equals `s`.
pub fn contains_str(v: &Vec<String>, s: &str) -> (r: bool)
    ensures
        r == v.deep_view().contains(s@),
{
    let mut i: usize = 0;
    while i < v.len()
        invariant
            i <= v.len(),
            forall|j: int| 0 <= j < i ==> v.deep_view()[j] != s@,
        decreases v.len() - i,
    {
        if str_eq(v[i].as_str(), s) {
            assert(v.deep_view()[i as int] == s@);
            return true;
        }
        i = i + 1;
    }
    assert(forall|j: int| 0 <= j < v.deep_view().len() ==> v.deep_view()[j] != s@);
    false
}

// ---------------------------------------------------------------------------
// Joining
// ---------------------------------------------------------------------------

/// The meaning of joining a directory and a child name.
pub open spec fn join_spec(base: Seq<char>, name: Seq<char>) -> Seq<char> {
    base + seq!['/'] + name
}

/// `base` joined with `name`, separated by `/`.
pub fn path_join(base: &str, name: &str) -> (r: String)
    ensures
        r@ == join_spec(base@, name@),
{
    let mut r = String::from_str(base);
    r.append("/");
    r.append(name);
    proof {
        reveal_strlit("/");
        assert(r@ =~= join_spec(base@, name@));
    }
    r
}

// ---------------------------------------------------------------------------
// File name, parent, extension, stem
// ---------------------------------------------------------------------------

/// `s` with every trailing `/` removed.
pub open spec fn strip_trailing_slashes(s: Seq<char>) -> Seq<char>
    decreases s.len(),
{
    if s.len() > 0 && s[s.len() - 1] == '/' {
        strip_trailing_slashes(s.drop_last())
    } else {
        s
    }
}

/// The final component of a path: what stands after the last `/` once
/// trailing slashes are gone. Empty paths and roots have none.
pub open spec fn file_name_spec(p: Seq<char>) -> Option<Seq<char>> {
    let t = strip_trailing_slashes(p);
    match index_of_last(t, '/') {
        Some(i) => if i + 1 < t.len() {
            Some(t.subrange(i + 1, t.len() as int))
        } else {
            None
        },
        None => if t.len() > 0 {
            Some(t)
        } else {
            None
        },
    }
}

/// The path with its final component removed.
pub open spec fn parent_spec(p: Seq<char>) -> Option<Seq<char>> {
    let t = strip_trailing_slashes(p);
    match index_of_last(t, '/') {
        Some(i) => Some(t.subrange(0, i)),
        None => None,
    }
}

/// The name of the directory that directly holds the final component.
pub open spec fn parent_name_spec(p: Seq<char>) -> Option<Seq<char>> {
    match parent_spec(p) {
        Some(q) => file_name_spec(q),
        None => None,
    }
}

proof fn lemma_strip_chars(s: Seq<char>, end: int)
    requires
        0 <= end <= s.len(),
        forall|j: int| end <= j < s.len() ==> s[j] == '/',
        end > 0 ==> s[end - 1] != '/',
    ensures
        strip_trailing_slashes(s) == s.take(end),
    decreases s.len(),
{
    if s.len() > end {
        lemma_strip_chars(s.drop_last(), end);
        assert(s.drop_last().take(end) =~= s.take(end));
    } else {
        assert(s.take(end) =~= s);
    }
}

/// Where a path splits: the end of its stripped form, and the position of
/// the last `/` inside that form, if there is one.
fn split_points(p: &str) -> (r: (usize, Option<usize>))
    ensures
        r.0 <= p@.len(),
        strip_trailing_slashes(p@) == p@.take(r.0 as int),
        match r.1 {
            Some(k) => k + 1 < r.0 && index_of_last(p@.take(r.0 as int), '/') == Some(k as int),
            None => index_of_last(p@.take(r.0 as int), '/') is None,
        },
{
    let len = p.unicode_len();
    let mut end: usize = len;
    while end > 0 && p.get_char(end - 1) == '/'
        invariant
            end <= len,
            len == p@.len(),
            forall|j: int| end <= j < len ==> p@[j] == '/',
        decreases end,
    {
        end = end - 1;
    }
    proof {
        lemma_strip_chars(p@, end as int);
    }
    let ghost t = p@.take(end as int);
    let mut i: usize = end;
    while i > 0 && p.get_char(i - 1) != '/'
        invariant
            i <= end,
            end <= len,
            len == p@.len(),
            end > 0 ==> p@[end - 1] != '/',
            forall|j: int| i <= j < end ==> p@[j] != '/',
        decreases i,
    {
        i = i - 1;
    }
    proof {
        lemma_index_of_last_is(t, '/');
        assert(forall|j: int| 0 <= j < end ==> t[j] == p@[j]);
        if i > 0 {
            assert(t[i - 1] == '/');
            match index_of_last(t, '/') {
                Some(m) => {
                    if m > i - 1 {
                        assert(t[m] != '/');
                    }
                    if m < i - 1 {
                        assert(t[i - 1] != '/');
                    }
                    assert(m == i - 1);
                    assert(i - 1 != end - 1);
                },
                None => {
                    assert(t[i - 1] != '/');
                },
            }
        }
    }
    if i > 0 {
        (end, Some(i - 1))
    } else {
        (end, None)
    }
}

/// The final component of `p`, as executable code.
pub fn file_name(p: &str) -> (r: Option<String>)
    ensures
        match r {
            Some(n) => file_name_spec(p@) == Some(n@),
            None => file_name_spec(p@) is None,
        },
{
    let (end, slash) = split_points(p);
    let ghost t = p@.take(end as int);
    match slash {
        Some(k) => {
            let n = String::from_str(p.substring_char(k + 1, end));
            proof {
                assert(p@.subrange(k + 1, end as int) =~= t.subrange(k + 1, t.len() as int));
            }
            Some(n)
        },
        None => {
            if end > 0 {
                let n = String::from_str(p.substring_char(0, end));
                proof {
                    assert(p@.subrange(0, end as int) =~= t);
                }
                Some(n)
            } else {
                None
            }
        },
    }
}

/// The parent of `p`, as executable code.
pub fn parent_path(p: &str) -> (r: Option<String>)
    ensures
        match r {
            Some(q) => parent_spec(p@) == Some(q@),
            None => parent_spec(p@) is None,
        },
{
    let (end, slash) = split_points(p);
    let ghost t = p@.take(end as int);
    match slash {
        Some(k) => {
            let q = String::from_str(p.substring_char(0, k));
            proof {
                assert(p@.subrange(0, k as int) =~= t.subrange(0, k as int));
            }
            Some(q)
        },
        None => None,
    }
}

/// The name of the directory directly holding `p`'s final component.
pub fn parent_name(p: &str) -> (r: Option<String>)
    ensures
        match r {
            Some(n) => parent_name_spec(p@) == Some(n@),
            None => parent_name_spec(p@) is None,
        },
{
    match parent_path(p) {
        Some(q) => file_name(q.as_str()),
        None => None,
    }
}

/// The extension of a file name: what follows its last `.`, provided that
/// dot is not the leading character.
pub open spec fn extension_spec(name: Seq<char>) -> Option<Seq<char>> {
    match index_of_last(name, '.') {
        Some(i) => if i > 0 {
            Some(name.subrange(i + 1, name.len() as int))
        } else {
            None
        },
        None => None,
    }
}

/// The stem of a file name: what precedes the extension, or the whole name.
pub open spec fn stem_spec(name: Seq<char>) -> Seq<char> {
    match index_of_last(name, '.') {
        Some(i) => if i > 0 {
            name.subrange(0, i)
        } else {
            name
        },
        None => name,
    }
}

fn last_dot(name: &str) -> (r: Option<usize>)
    ensures
        match r {
            Some(i) => i < name@.len() && index_of_last(name@, '.') == Some(i as int),
            None => index_of_last(name@, '.') is None,
        },
{
    let len = name.unicode_len();
    let mut i: usize = len;
    while i > 0 && name.get_char(i - 1) != '.'
        invariant
            i <= len,
            len == name@.len(),
            forall|j: int| i <= j < len ==> name@[j] != '.',
        decreases i,
    {
        i = i - 1;
    }
    proof {
        lemma_index_of_last_is(name@, '.');
    }
    if i > 0 {
        Some(i - 1)
    } else {
        None
    }
}

/// The extension of `name`, as executable code.
pub fn extension_of(name: &str) -> (r: Option<String>)
    ensures
        match r {
            Some(e) => extension_spec(name@) == Some(e@),
            None => extension_spec(name@) is None,
        },
{
    let len = name.unicode_len();
    match last_dot(name) {
        Some(i) => {
            if i > 0 {
                Some(String::from_str(name.substring_char(i + 1, len)))
            } else {
                None
            }
        },
        None => None,
    }
}

/// The stem of `name`, as executable code.
pub fn stem_of(name: &str) -> (r: String)
    ensures
        r@ == stem_spec(name@),
{
    match last_dot(name) {
        Some(i) => {
            if i > 0 {
                String::from_str(name.substring_char(0, i))
            } else {
                String::from_str(name)
            }
        },
        None => String::from_str(name),
    }
}

/// The extension of the final component of a path.
pub open spec fn path_extension_spec(p: Seq<char>) -> Option<Seq<char>> {
    match file_name_spec(p) {
        Some(n) => extension_spec(n),
        None => None,
    }
}

/// The stem of the final component of a path.
pub open spec fn path_stem_spec(p: Seq<char>) -> Option<Seq<char>> {
    match file_name_spec(p) {
        Some(n) => Some(stem_spec(n)),
        None => None,
    }
}

/// The extension of `p`'s final component, as executable code.
pub fn path_extension(p: &str) -> (r: Option<String>)
    ensures
        match r {
            Some(e) => path_extension_spec(p@) == Some(e@),
            None => path_extension_spec(p@) is None,
        },
{
    match file_name(p) {
        Some(n) => extension_of(n.as_str()),
        None => None,
    }
}

/// The stem of `p`'s final component, as executable code.
pub fn path_stem(p: &str) -> (r: Option<String>)
    ensures
        match r {
            Some(s) => path_stem_spec(p@) == Some(s@),
            None => path_stem_spec(p@) is None,
        },
{
    match file_name(p) {
        Some(n) => Some(stem_of(n.as_str())),
        None => None,
    }
}

// ---------------------------------------------------------------------------
// Prefix before a separator
// ---------------------------------------------------------------------------

/// Everything before the first occurrence of `c`, or the whole string.
pub open spec fn prefix_before(s: Seq<char>, c: char) -> Seq<char> {
    match index_of_first(s, c) {
        Some(i) => s.take(i),
        None => s,
    }
}

/// The prefix of `s` up to (excluding) its first `c`, as executable code.
pub fn take_prefix_before(s: &str, c: char) -> (r: String)
    ensures
        r@ == prefix_before(s@, c),
{
    match find_first(s, c) {
        Some(i) => String::from_str(s.substring_char(0, i)),
        None => String::from_str(s),
    }
}

} // verus!
