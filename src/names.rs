//! File-name rules for single directory entries: extension, stem, and the name
//! with its extension replaced, as the standard library's path type applies
//! them to a path's final component.
use vstd::prelude::*;
use vstd::string::StrSliceExecFns;

verus! {

/// The sequence `".."`.
pub open spec fn parent_dir() -> Seq<char> {
    seq!['.', '.']
}

/// Whether the final component `s` is a file name at all: not empty, `"."` or `".."`.
pub open spec fn has_file_name(s: Seq<char>) -> bool {
    s.len() > 0 && s != seq!['.'] && s != parent_dir()
}

/// The index of the last `'.'` in `s`, if there is one.
pub open spec fn last_dot(s: Seq<char>) -> Option<int>
    decreases s.len(),
{
    if s.len() == 0 {
        None
    } else if s.last() == '.' {
        Some(s.len() - 1)
    } else {
        last_dot(s.drop_last())
    }
}

/// The extension of a file name: what follows the last `'.'`, unless there is
/// no `'.'` or the only one opens the name.
pub open spec fn extension_of(s: Seq<char>) -> Option<Seq<char>> {
    if !has_file_name(s) {
        None
    } else {
        match last_dot(s) {
            Some(k) => if k > 0 {
                Some(s.subrange(k + 1, s.len() as int))
            } else {
                None
            },
            None => None,
        }
    }
}

/// The stem of a file name: the name without its extension and the dot before it.
pub open spec fn stem_of(s: Seq<char>) -> Seq<char> {
    match extension_of(s) {
        Some(e) => s.subrange(0, s.len() - e.len() - 1),
        None => s,
    }
}

/// `s` with its extension replaced by `e` (removed where `e` is empty); a
/// component that is no file name stays as it is.
pub open spec fn with_extension_of(s: Seq<char>, e: Seq<char>) -> Seq<char> {
    if !has_file_name(s) {
        s
    } else if e.len() == 0 {
        stem_of(s)
    } else {
        stem_of(s) + seq!['.'] + e
    }
}

/// The extension that marks a LAS point-cloud file.
pub open spec fn las_extension() -> Seq<char> {
    seq!['l', 'a', 's']
}

/// Whether the entry name `s` names a LAS file: its extension is exactly `las`.
pub open spec fn is_las_name(s: Seq<char>) -> bool {
    extension_of(s) == Some(las_extension())
}

proof fn lemma_last_dot_prefix(s: Seq<char>, i: int)
    requires
        0 < i <= s.len(),
        s[i - 1] != '.',
    ensures
        last_dot(s.subrange(0, i)) == last_dot(s.subrange(0, i - 1)),
{
    assert(s.subrange(0, i).drop_last() =~= s.subrange(0, i - 1));
}

/// Finds the last `'.'` of `s`.
fn find_last_dot(s: &str) -> (r: Option<usize>)
    ensures
        match r {
            Some(k) => last_dot(s@) == Some(k as int) && k < s@.len(),
            None => last_dot(s@) is None,
        },
{
    let n = s.unicode_len();
    let mut i: usize = n;
    assert(s@.subrange(0, n as int) =~= s@);
    while i > 0
        invariant
            i <= n == s@.len(),
            last_dot(s@) == last_dot(s@.subrange(0, i as int)),
        decreases i,
    {
        if s.get_char(i - 1) == '.' {
            return Some(i - 1);
        }
        proof {
            lemma_last_dot_prefix(s@, i as int);
        }
        i = i - 1;
    }
    None
}

/// Whether `s` is a file name at all (not empty, `"."` or `".."`).
fn file_name_present(s: &str) -> (r: bool)
    ensures
        r == has_file_name(s@),
{
    let n = s.unicode_len();
    if n == 0 {
        return false;
    }
    if n == 1 && s.get_char(0) == '.' {
        assert(s@ =~= seq!['.']);
        return false;
    }
    if n == 2 && s.get_char(0) == '.' && s.get_char(1) == '.' {
        assert(s@ =~= parent_dir());
        return false;
    }
    if n == 1 {
        assert(s@[0] != seq!['.'][0]);
    }
    if n == 2 {
        assert(s@[0] != parent_dir()[0] || s@[1] != parent_dir()[1]);
    }
    true
}

/// The length of the extension of `s`, if it has one.
fn extension_len(s: &str) -> (r: Option<usize>)
    ensures
        match r {
            Some(l) => extension_of(s@) is Some && l + 2 <= s@.len()
                && extension_of(s@)->0 == s@.subrange(s@.len() - l, s@.len() as int),
            None => extension_of(s@) is None,
        },
{
    if !file_name_present(s) {
        return None;
    }
    match find_last_dot(s) {
        Some(k) => if k > 0 {
            Some(s.unicode_len() - k - 1)
        } else {
            None
        },
        None => None,
    }
}

/// Whether the directory entry `name` is a LAS file: its extension is exactly
/// `las`, with that case.
pub fn has_las_extension(name: &str) -> (r: bool)
    ensures
        r == is_las_name(name@),
{
    match extension_len(name) {
        Some(l) => {
            let n = name.unicode_len();
            if l != 3 {
                assert(extension_of(name@)->0.len() != las_extension().len());
                return false;
            }
            let ghost e = extension_of(name@)->0;
            assert(e =~= name@.subrange(n - 3, n as int));
            let r = name.get_char(n - 3) == 'l' && name.get_char(n - 2) == 'a'
                && name.get_char(n - 1) == 's';
            if r {
                assert(e =~= las_extension());
            } else {
                assert(e[0] != las_extension()[0] || e[1] != las_extension()[1] || e[2]
                    != las_extension()[2]);
            }
            r
        },
        None => false,
    }
}

/// `name` with its extension replaced by `ext`, or removed where `ext` is
/// empty; a name that is empty, `"."` or `".."` comes back unchanged.
pub fn with_extension(name: &str, ext: &str) -> (r: String)
    ensures
        r@ == with_extension_of(name@, ext@),
{
    if !file_name_present(name) {
        return String::from_str(name);
    }
    let n = name.unicode_len();
    let stem_len = match extension_len(name) {
        Some(l) => n - l - 1,
        None => n,
    };
    let mut r = String::from_str(name.substring_char(0, stem_len));
    assert(r@ =~= stem_of(name@));
    if ext.unicode_len() > 0 {
        r.append(".");
        proof {
            reveal_strlit(".");
        }
        r.append(ext);
    }
    r
}

} // verus!
