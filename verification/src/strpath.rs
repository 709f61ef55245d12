//! String and path helpers.
//!
//! Paths are held as plain strings, with `/` as the component separator.
//! Everything here is specified over the `Seq<char>` view of the strings.

use vstd::prelude::*;

verus! {

/// Lowercase mapping for a single character: ASCII letters are folded,
/// every other character is left alone.
pub open spec fn spec_lower_char(c: char) -> char {
    if 'A' <= c && c <= 'Z' {
        ((c as u8) + 32) as char
    } else {
        c
    }
}

/// Lowercase mapping for a whole character sequence.
pub open spec fn spec_lower(s: Seq<char>) -> Seq<char> {
    s.map_values(|c: char| spec_lower_char(c))
}

/// Folds one ASCII uppercase letter to lowercase.
pub fn lower_char(c: char) -> (r: char)
    ensures
        r == spec_lower_char(c),
{
    let v: u32 = c as u32;
    if 65 <= v && v <= 90 {
        ((v as u8) + 32) as char
    } else {
        c
    }
}

/// Character-by-character string equality, pinned to the views.
pub fn str_eq(a: &str, b: &str) -> (r: bool)
    ensures
        r == (a@ == b@),
{
    let alen = a.unicode_len();
    let blen = b.unicode_len();
    if alen != blen {
        return false;
    }
    let mut i: usize = 0;
    while i < alen
        invariant
            alen == a@.len(),
            blen == b@.len(),
            alen == blen,
            i <= alen,
            forall|j: int| 0 <= j < i ==> a@[j] == b@[j],
        decreases alen - i,
    {
        if a.get_char(i) != b.get_char(i) {
            return false;
        }
        i += 1;
    }
    proof {
        assert(a@ =~= b@);
    }
    true
}

/// Case-insensitive (ASCII) string comparison: equality of the lowercase
/// foldings of the two strings.
pub fn str_eq_ignore_case(a: &str, b: &str) -> (r: bool)
    ensures
        r == (spec_lower(a@) == spec_lower(b@)),
{
    let alen = a.unicode_len();
    let blen = b.unicode_len();
    if alen != blen {
        proof {
            assert(spec_lower(a@).len() == a@.len());
            assert(spec_lower(b@).len() == b@.len());
        }
        return false;
    }
    let mut i: usize = 0;
    while i < alen
        invariant
            alen == a@.len(),
            blen == b@.len(),
            alen == blen,
            i <= alen,
            forall|j: int| 0 <= j < i ==> spec_lower_char(a@[j]) == spec_lower_char(b@[j]),
        decreases alen - i,
    {
        if lower_char(a.get_char(i)) != lower_char(b.get_char(i)) {
            proof {
                assert(spec_lower(a@)[i as int] != spec_lower(b@)[i as int]);
            }
            return false;
        }
        i += 1;
    }
    proof {
        assert(spec_lower(a@) =~= spec_lower(b@));
    }
    true
}

/// Joining a directory path and an entry name with a single separator.
pub open spec fn spec_join(base: Seq<char>, name: Seq<char>) -> Seq<char> {
    if base.len() == 0 {
        name
    } else if base.last() == '/' {
        base + name
    } else {
        base + seq!['/'] + name
    }
}

/// Appends `name` to `base`, inserting a `/` separator unless `base` is
/// empty or already ends in one.
pub fn join_path(base: &str, name: &str) -> (r: String)
    ensures
        r@ == spec_join(base@, name@),
{
    let blen = base.unicode_len();
    if blen == 0 {
        return name.to_owned();
    }
    let last = base.substring_char(blen - 1, blen);
    proof {
        reveal_strlit("/");
        assert("/"@[0] == '/');
        assert(last@[0] == base@.last());
        if base@.last() == '/' {
            assert(last@ =~= "/"@);
        }
    }
    let mut out = base.to_owned();
    if !str_eq(last, "/") {
        out.append("/");
        proof {
            assert(out@ =~= base@ + seq!['/']);
        }
    }
    out.append(name);
    proof {
        reveal_strlit("/");
        if base@.last() == '/' {
            assert(out@ =~= spec_join(base@, name@));
        } else {
            assert(out@ =~= spec_join(base@, name@));
        }
    }
    out
}

/// Index of the last occurrence of `c` in `s`, if any.
pub open spec fn spec_last_index(s: Seq<char>, c: char) -> Option<int>
    decreases s.len(),
{
    if s.len() == 0 {
        None
    } else if s.last() == c {
        Some(s.len() - 1)
    } else {
        spec_last_index(s.drop_last(), c)
    }
}

/// What a last-occurrence index means: it carries `c`, nothing after it
/// does, and a `None` says `c` does not occur at all.
pub proof fn lemma_last_index_props(s: Seq<char>, c: char)
    ensures
        match spec_last_index(s, c) {
            Some(i) => 0 <= i < s.len() && s[i] == c && (forall|j: int|
                i < j < s.len() ==> s[j] != c),
            None => forall|j: int| 0 <= j < s.len() ==> s[j] != c,
        },
    decreases s.len(),
{
    if s.len() > 0 && s.last() != c {
        lemma_last_index_props(s.drop_last(), c);
        assert(forall|j: int| 0 <= j < s.len() - 1 ==> s.drop_last()[j] == s[j]);
    }
}

/// Finds the last occurrence of `c` in `s`.
pub fn last_index_of(s: &str, c: char) -> (r: Option<usize>)
    ensures
        match r {
            Some(i) => spec_last_index(s@, c) == Some(i as int),
            None => spec_last_index(s@, c) is None,
        },
{
    let len = s.unicode_len();
    let mut i: usize = len;
    proof {
        assert(s@.take(len as int) =~= s@);
    }
    while i > 0
        invariant
            i <= len,
            len == s@.len(),
            spec_last_index(s@, c) == spec_last_index(s@.take(i as int), c),
        decreases i,
    {
        if s.get_char(i - 1) == c {
            proof {
                assert(s@.take(i as int).last() == c);
            }
            return Some(i - 1);
        }
        proof {
            assert(s@.take(i as int).drop_last() =~= s@.take(i as int - 1));
        }
        i -= 1;
    }
    None
}

/// The part of a path after its last separator (the whole path when there
/// is no separator).
pub open spec fn spec_after_last_slash(s: Seq<char>) -> Seq<char> {
    match spec_last_index(s, '/') {
        Some(i) => s.subrange(i + 1, s.len() as int),
        None => s,
    }
}

/// The file-name component of a path: the text after the last separator,
/// unless that text is empty, `.` or `..`.
pub open spec fn spec_file_name(s: Seq<char>) -> Option<Seq<char>> {
    let name = spec_after_last_slash(s);
    if name.len() == 0 || name == seq!['.'] || name == seq!['.', '.'] {
        None
    } else {
        Some(name)
    }
}

/// Extracts the file-name component of a path, if it has one.
pub fn file_name_of(path: &str) -> (r: Option<String>)
    ensures
        match r {
            Some(name) => spec_file_name(path@) == Some(name@),
            None => spec_file_name(path@) is None,
        },
{
    let len = path.unicode_len();
    proof {
        lemma_last_index_props(path@, '/');
    }
    let start: usize = match last_index_of(path, '/') {
        Some(i) => i + 1,
        None => 0,
    };
    let name = path.substring_char(start, len);
    proof {
        assert(name@ =~= spec_after_last_slash(path@));
        reveal_strlit(".");
        reveal_strlit("..");
        assert("."@[0] == '.');
        assert(".."@[0] == '.');
        assert(".."@[1] == '.');
        if name@ == seq!['.'] {
            assert(name@ =~= "."@);
        }
        if name@ == seq!['.', '.'] {
            assert(name@ =~= ".."@);
        }
        if name@ == "."@ {
            assert(name@ =~= seq!['.']);
        }
        if name@ == ".."@ {
            assert(name@ =~= seq!['.', '.']);
        }
    }
    if name.unicode_len() == 0 || str_eq(name, ".") || str_eq(name, "..") {
        None
    } else {
        Some(name.to_owned())
    }
}

/// The parent of a path: the text before the last separator, or `/` when
/// the only separator is the leading one; a bare name has no parent.
pub open spec fn spec_parent(s: Seq<char>) -> Option<Seq<char>> {
    match spec_last_index(s, '/') {
        None => None,
        Some(i) => if i == 0 {
            Some(seq!['/'])
        } else {
            Some(s.subrange(0, i))
        },
    }
}

/// Extracts the parent directory of a path, if it has one.
pub fn parent_of(path: &str) -> (r: Option<String>)
    ensures
        match r {
            Some(p) => spec_parent(path@) == Some(p@),
            None => spec_parent(path@) is None,
        },
{
    proof {
        lemma_last_index_props(path@, '/');
    }
    match last_index_of(path, '/') {
        None => None,
        Some(i) => {
            if i == 0 {
                let root = "/".to_owned();
                proof {
                    reveal_strlit("/");
                    assert("/"@[0] == '/');
                    assert(root@ =~= seq!['/']);
                }
                Some(root)
            } else {
                Some(path.substring_char(0, i).to_owned())
            }
        },
    }
}

/// The extension of a path: the text after the last `.` of the file name,
/// provided that dot is not the name's first character.
pub open spec fn spec_extension(s: Seq<char>) -> Option<Seq<char>> {
    match spec_file_name(s) {
        None => None,
        Some(name) => match spec_last_index(name, '.') {
            None => None,
            Some(j) => if j == 0 {
                None
            } else {
                Some(name.subrange(j + 1, name.len() as int))
            },
        },
    }
}

/// Extracts the extension of a path, if it has one.
pub fn extension_of(path: &str) -> (r: Option<String>)
    ensures
        match r {
            Some(e) => spec_extension(path@) == Some(e@),
            None => spec_extension(path@) is None,
        },
{
    match file_name_of(path) {
        None => None,
        Some(name) => {
            let nlen = name.as_str().unicode_len();
            proof {
                lemma_last_index_props(name@, '.');
            }
            match last_index_of(name.as_str(), '.') {
                None => None,
                Some(j) => {
                    if j == 0 {
                        None
                    } else {
                        let ext = name.as_str().substring_char(j + 1, nlen);
                        Some(ext.to_owned())
                    }
                },
            }
        },
    }
}

/// Whether a file name is hidden, that is, begins with a dot.
pub open spec fn spec_starts_with_dot(s: Seq<char>) -> bool {
    s.len() > 0 && s[0] == '.'
}

/// Tests whether a name begins with a dot.
pub fn starts_with_dot(name: &str) -> (r: bool)
    ensures
        r == spec_starts_with_dot(name@),
{
    if name.unicode_len() == 0 {
        return false;
    }
    name.get_char(0) == '.'
}

} // verus!
