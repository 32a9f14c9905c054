//! Decomposition of an icon file path into its file stem and its parent
//! directory, the two pieces a tray host needs to locate an icon: the stem
//! becomes the icon name and the parent becomes the icon search path.
//!
//! The file name is the path's last component, ignoring trailing separators
//! and trailing `.` components; a path whose last component is `..` has no
//! file name. The stem is the file name without its final extension, where a
//! leading dot begins no extension. The parent is everything left of the
//! file name with its trailing separators removed, or the root directory
//! when nothing is left of an absolute path. The split succeeds exactly when
//! the path has a file name and a non-empty parent, so both components are
//! non-empty on success.

use vstd::prelude::*;

use crate::error::TrayError;

verus! {

/// Index of the last occurrence of `c` in `s`, or `-1` when `c` does not
/// occur in `s`.
pub open spec fn last_index_of(s: Seq<char>, c: char) -> int
    decreases s.len(),
{
    if s.len() == 0 {
        -1
    } else if s[s.len() - 1] == c {
        s.len() - 1
    } else {
        last_index_of(s.drop_last(), c)
    }
}

/// `last_index_of` returns a valid index of `c`, with no later occurrence.
pub proof fn lemma_last_index_of(s: Seq<char>, c: char)
    ensures
        -1 <= last_index_of(s, c) < s.len(),
        last_index_of(s, c) >= 0 ==> s[last_index_of(s, c)] == c,
        forall|j: int| last_index_of(s, c) < j < s.len() ==> s[j] != c,
    decreases s.len(),
{
    if s.len() == 0 {
    } else if s[s.len() - 1] == c {
    } else {
        lemma_last_index_of(s.drop_last(), c);
        assert forall|j: int| last_index_of(s, c) < j < s.len() implies s[j] != c by {
            if j < s.len() - 1 {
                assert(s.drop_last()[j] == s[j]);
            }
        }
    }
}

/// The given sequence with every trailing separator removed.
pub open spec fn strip_trailing_seps(s: Seq<char>) -> Seq<char>
    decreases s.len(),
{
    if s.len() > 0 && s[s.len() - 1] == '/' {
        strip_trailing_seps(s.drop_last())
    } else {
        s
    }
}

/// Whether the sequence ends in a `.` path component: a current-directory
/// marker, which names no file.
pub open spec fn ends_with_cur_dir(s: Seq<char>) -> bool {
    s.len() > 0 && s[s.len() - 1] == '.' && (s.len() == 1 || s[s.len() - 2] == '/')
}

/// Whether the sequence ends in a `..` path component: a parent-directory
/// marker, after which the path has no file name.
pub open spec fn ends_with_parent_dir(s: Seq<char>) -> bool {
    s.len() >= 2 && s[s.len() - 1] == '.' && s[s.len() - 2] == '.' && (s.len() == 2 || s[s.len()
        - 3] == '/')
}

/// The given sequence with every trailing separator and every trailing `.`
/// component removed; what remains ends in the path's last real component.
pub open spec fn trim_tail(s: Seq<char>) -> Seq<char>
    decreases s.len(),
{
    if s.len() > 0 && s[s.len() - 1] == '/' {
        trim_tail(s.drop_last())
    } else if ends_with_cur_dir(s) {
        trim_tail(s.drop_last())
    } else {
        s
    }
}

/// Trimming the tail shortens the sequence at most, and leaves a sequence
/// that is empty or ends in neither a separator nor a `.` component.
pub proof fn lemma_trim_tail(s: Seq<char>)
    ensures
        trim_tail(s).len() <= s.len(),
        trim_tail(s).len() > 0 ==> trim_tail(s)[trim_tail(s).len() - 1] != '/',
        !ends_with_cur_dir(trim_tail(s)),
    decreases s.len(),
{
    if s.len() > 0 && s[s.len() - 1] == '/' {
        lemma_trim_tail(s.drop_last());
    } else if ends_with_cur_dir(s) {
        lemma_trim_tail(s.drop_last());
    }
}

/// Index of the separator at which `path` is split, within the path with its
/// tail trimmed; `-1` when there is no separator there.
pub open spec fn sep_index(path: Seq<char>) -> int {
    last_index_of(trim_tail(path), '/')
}

/// Whether `path` decomposes into a non-empty file stem and a non-empty
/// parent directory: its last real component is a file name, not a `..`
/// marker, and a separator stands left of it.
pub open spec fn splits_ok(path: Seq<char>) -> bool {
    &&& !ends_with_parent_dir(trim_tail(path))
    &&& sep_index(path) >= 0
}

/// The parent directory of `path`: everything left of the file name with its
/// trailing separators removed, or the root directory when nothing is left.
pub open spec fn parent_of(path: Seq<char>) -> Seq<char> {
    let t = trim_tail(path);
    let left = strip_trailing_seps(t.subrange(0, sep_index(path)));
    if left.len() == 0 {
        seq!['/']
    } else {
        left
    }
}

/// The file name of `path`: its last real component, with the tail trimmed
/// first.
pub open spec fn file_name_of(path: Seq<char>) -> Seq<char> {
    let t = trim_tail(path);
    t.subrange(sep_index(path) + 1, t.len() as int)
}

/// The file stem of `path`: its file name without the final extension. A
/// leading dot does not begin an extension.
pub open spec fn stem_of(path: Seq<char>) -> Seq<char> {
    let n = file_name_of(path);
    let j = last_index_of(n, '.');
    if j <= 0 {
        n
    } else {
        n.subrange(0, j)
    }
}

/// On a path that splits, both components of the split are non-empty.
pub proof fn lemma_split_components_nonempty(path: Seq<char>)
    requires
        splits_ok(path),
    ensures
        stem_of(path).len() > 0,
        parent_of(path).len() > 0,
{
    let t = trim_tail(path);
    let i = sep_index(path);
    lemma_trim_tail(path);
    lemma_last_index_of(t, '/');
    assert(t[i] == '/');
    assert(i < t.len() - 1);
    let n = file_name_of(path);
    assert(n.len() > 0);
    lemma_last_index_of(n, '.');
}

/// Index of the last occurrence of `c` before position `end` of `s`, or
/// `None` when `c` does not occur there.
fn rfind_before(s: &str, end: usize, c: char) -> (r: Option<usize>)
    requires
        end <= s@.len(),
    ensures
        match r {
            Some(i) => i < end && last_index_of(s@.subrange(0, end as int), c) == i,
            None => last_index_of(s@.subrange(0, end as int), c) == -1,
        },
{
    let mut k = end;
    while k > 0
        invariant
            k <= end <= s@.len(),
            last_index_of(s@.subrange(0, end as int), c) == last_index_of(
                s@.subrange(0, k as int),
                c,
            ),
        decreases k,
    {
        let ch = s.get_char(k - 1);
        proof {
            assert(s@.subrange(0, k as int)[k - 1] == s@[k - 1]);
        }
        if ch == c {
            return Some(k - 1);
        }
        proof {
            assert(s@.subrange(0, k as int).drop_last() =~= s@.subrange(0, k as int - 1));
        }
        k = k - 1;
    }
    proof {
        assert(s@.subrange(0, 0).len() == 0);
    }
    None
}

/// Whether the first `end` characters of `s` end in a trailing separator or
/// a trailing `.` component, either of which the split skips.
fn tail_is_skippable(s: &str, end: usize) -> (r: bool)
    requires
        1 <= end <= s@.len(),
    ensures
        r <==> (s@.subrange(0, end as int)[end - 1] == '/' || ends_with_cur_dir(
            s@.subrange(0, end as int),
        )),
{
    proof {
        assert(s@.subrange(0, end as int)[end - 1] == s@[end - 1]);
        if end >= 2 {
            assert(s@.subrange(0, end as int)[end - 2] == s@[end - 2]);
        }
    }
    let c = s.get_char(end - 1);
    if c == '/' {
        true
    } else if c == '.' {
        if end == 1 {
            true
        } else {
            s.get_char(end - 2) == '/'
        }
    } else {
        false
    }
}

/// Whether the first `end` characters of `s` end in a `..` component.
fn tail_is_parent_dir(s: &str, end: usize) -> (r: bool)
    requires
        end <= s@.len(),
    ensures
        r <==> ends_with_parent_dir(s@.subrange(0, end as int)),
{
    if end < 2 {
        return false;
    }
    proof {
        assert(s@.subrange(0, end as int)[end - 1] == s@[end - 1]);
        assert(s@.subrange(0, end as int)[end - 2] == s@[end - 2]);
        if end >= 3 {
            assert(s@.subrange(0, end as int)[end - 3] == s@[end - 3]);
        }
    }
    if s.get_char(end - 1) != '.' {
        return false;
    }
    if s.get_char(end - 2) != '.' {
        return false;
    }
    if end == 2 {
        true
    } else {
        s.get_char(end - 3) == '/'
    }
}

/// Splits an icon file path into `(icon_name, icon_search_path)`: the file
/// stem and the parent directory. Fails with [`TrayError::ConfigurationError`]
/// exactly when the path has no file name or no parent directory, as a bare
/// file name, the root path, or a path ending in a `..` component has.
pub fn split_icon_path(path: &str) -> (r: Result<(String, String), TrayError>)
    ensures
        r is Ok <==> splits_ok(path@),
        r matches Ok(p) ==> p.0@ == stem_of(path@) && p.1@ == parent_of(path@),
        r matches Err(e) ==> e == TrayError::ConfigurationError,
{
    let n = path.unicode_len();
    let mut end = n;
    proof {
        assert(path@.subrange(0, n as int) =~= path@);
    }
    while end > 0 && tail_is_skippable(path, end)
        invariant
            end <= n == path@.len(),
            trim_tail(path@) == trim_tail(path@.subrange(0, end as int)),
        decreases end,
    {
        proof {
            assert(path@.subrange(0, end as int).drop_last() =~= path@.subrange(
                0,
                end as int - 1,
            ));
        }
        end = end - 1;
    }
    proof {
        assert(trim_tail(path@) =~= path@.subrange(0, end as int));
    }
    if tail_is_parent_dir(path, end) {
        return Err(TrayError::ConfigurationError);
    }
    let sep = rfind_before(path, end, '/');
    match sep {
        None => Err(TrayError::ConfigurationError),
        Some(i) => {
            proof {
                lemma_last_index_of(trim_tail(path@), '/');
                lemma_trim_tail(path@);
            }
            let name_str = path.substring_char(i + 1, end);
            proof {
                assert(name_str@ =~= file_name_of(path@));
            }
            let name_len = end - (i + 1);
            let dot = rfind_before(name_str, name_len, '.');
            proof {
                assert(name_str@.subrange(0, name_len as int) =~= name_str@);
            }
            let stem: String = match dot {
                Some(j) if j > 0 => name_str.substring_char(0, j).to_owned(),
                _ => name_str.to_owned(),
            };
            let mut pend = i;
            proof {
                assert(trim_tail(path@).subrange(0, i as int) =~= path@.subrange(0, i as int));
            }
            while pend > 0 && path.get_char(pend - 1) == '/'
                invariant
                    pend <= i < end <= path@.len(),
                    strip_trailing_seps(path@.subrange(0, i as int)) == strip_trailing_seps(
                        path@.subrange(0, pend as int),
                    ),
                decreases pend,
            {
                proof {
                    assert(path@.subrange(0, pend as int)[pend - 1] == path@[pend - 1]);
                    assert(path@.subrange(0, pend as int).drop_last() =~= path@.subrange(
                        0,
                        pend as int - 1,
                    ));
                }
                pend = pend - 1;
            }
            proof {
                if pend > 0 {
                    assert(path@.subrange(0, pend as int)[pend - 1] == path@[pend - 1]);
                }
                assert(strip_trailing_seps(path@.subrange(0, i as int)) =~= path@.subrange(
                    0,
                    pend as int,
                ));
            }
            let parent: String = if pend == 0 {
                proof {
                    reveal_strlit("/");
                }
                let root: &str = "/";
                proof {
                    assert(root@ =~= parent_of(path@));
                }
                root.to_owned()
            } else {
                let p = path.substring_char(0, pend);
                proof {
                    assert(p@ =~= parent_of(path@));
                }
                p.to_owned()
            };
            Ok((stem, parent))
        },
    }
}

} // verus!
