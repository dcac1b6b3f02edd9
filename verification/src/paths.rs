//! File names, stems and extensions of paths, and the audio-file filter.

use std::path::Path;
use vstd::prelude::*;

verus! {

/// What `std::path::Path::file_name` gives for a path, as text.
pub uninterp spec fn path_file_name(path: Seq<char>) -> Option<Seq<char>>;

/// What `std::path::Path::join` gives for a base path and a second path, as text.
pub uninterp spec fn path_join(base: Seq<char>, name: Seq<char>) -> Seq<char>;

/// The view of an optional string.
pub open spec fn opt_str_view(s: Option<String>) -> Option<Seq<char>> {
    match s {
        Some(t) => Some(t@),
        None => None,
    }
}

/// Calls `std::path::Path::file_name`. Claimed: the result is the text that
/// `path_file_name` names. A path built from a `&str` is valid UTF-8, so the
/// conversion back to a `String` never fails.
#[verifier::external_body]
pub(crate) fn file_name_of(path: &str) -> (res: Option<String>)
    ensures
        opt_str_view(res) == path_file_name(path@),
{
    Path::new(path).file_name().and_then(|n| n.to_str()).map(|n| n.to_string())
}

/// Calls `std::path::Path::join`. Claimed: the result is the text that
/// `path_join` names.
#[verifier::external_body]
pub(crate) fn join_path(base: &str, name: &str) -> (res: String)
    ensures
        res@ == path_join(base@, name@),
{
    Path::new(base).join(name).to_string_lossy().into_owned()
}

/// Index of the last `c` in `s`, or -1 where `s` holds none.
pub open spec fn last_index_of(s: Seq<char>, c: char) -> int
    decreases s.len(),
{
    if s.len() == 0 {
        -1
    } else if s.last() == c {
        s.len() - 1
    } else {
        last_index_of(s.drop_last(), c)
    }
}

/// The stem of a file name: the part before the final `.`, or the whole name
/// where it holds no `.` past its first character.
pub open spec fn stem_of_name(name: Seq<char>) -> Seq<char> {
    let i = last_index_of(name, '.');
    if i <= 0 {
        name
    } else {
        name.subrange(0, i)
    }
}

/// The extension of a file name: the part after the final `.`, where that
/// `.` is not the name's first character.
pub open spec fn extension_of_name(name: Seq<char>) -> Option<Seq<char>> {
    let i = last_index_of(name, '.');
    if i <= 0 {
        None
    } else {
        Some(name.subrange(i + 1, name.len() as int))
    }
}

/// The stem of a path's file name (`Path::file_stem` as its documentation states it).
pub open spec fn path_stem(path: Seq<char>) -> Option<Seq<char>> {
    match path_file_name(path) {
        Some(name) => Some(stem_of_name(name)),
        None => None,
    }
}

/// The extension of a path's file name (`Path::extension` as its documentation states it).
pub open spec fn path_extension(path: Seq<char>) -> Option<Seq<char>> {
    match path_file_name(path) {
        Some(name) => extension_of_name(name),
        None => None,
    }
}

proof fn lemma_last_index_step(s: Seq<char>, c: char, i: int)
    requires
        0 <= i < s.len(),
    ensures
        last_index_of(s.take(i + 1), c) == if s[i] == c {
            i
        } else {
            last_index_of(s.take(i), c)
        },
{
    assert(s.take(i + 1).drop_last() =~= s.take(i));
}

proof fn lemma_last_index_bounds(s: Seq<char>, c: char)
    ensures
        -1 <= last_index_of(s, c) < s.len(),
        last_index_of(s, c) >= 0 ==> s[last_index_of(s, c)] == c,
    decreases s.len(),
{
    if s.len() > 0 && s.last() != c {
        lemma_last_index_bounds(s.drop_last(), c);
    }
}

/// Finds the index of the last `.` in `name`, or `None`.
fn find_last_dot(name: &str) -> (res: Option<usize>)
    ensures
        match res {
            Some(i) => i as int == last_index_of(name@, '.'),
            None => last_index_of(name@, '.') == -1,
        },
{
    let n = name.unicode_len();
    let mut last: Option<usize> = None;
    let mut i: usize = 0;
    while i < n
        invariant
            n == name@.len(),
            0 <= i <= n,
            match last {
                Some(k) => k as int == last_index_of(name@.take(i as int), '.'),
                None => last_index_of(name@.take(i as int), '.') == -1,
            },
        decreases n - i,
    {
        proof {
            lemma_last_index_step(name@, '.', i as int);
            lemma_last_index_bounds(name@.take(i as int), '.');
        }
        if name.get_char(i) == '.' {
            last = Some(i);
        }
        i = i + 1;
    }
    assert(name@.take(n as int) =~= name@);
    last
}

/// The stem of a file name (see `stem_of_name`).
pub fn name_stem(name: &str) -> (res: String)
    ensures
        res@ == stem_of_name(name@),
{
    proof {
        lemma_last_index_bounds(name@, '.');
    }
    match find_last_dot(name) {
        Some(i) => {
            if i == 0 {
                name.to_owned()
            } else {
                name.substring_char(0, i).to_owned()
            }
        },
        None => name.to_owned(),
    }
}

/// The extension of a file name (see `extension_of_name`).
pub fn name_extension(name: &str) -> (res: Option<String>)
    ensures
        opt_str_view(res) == extension_of_name(name@),
{
    proof {
        lemma_last_index_bounds(name@, '.');
    }
    match find_last_dot(name) {
        Some(i) => {
            if i == 0 {
                None
            } else {
                let n = name.unicode_len();
                Some(name.substring_char(i + 1, n).to_owned())
            }
        },
        None => None,
    }
}

/// The stem of a path's file name: `Path::file_stem`.
pub fn file_stem(path: &str) -> (res: Option<String>)
    ensures
        opt_str_view(res) == path_stem(path@),
{
    match file_name_of(path) {
        Some(name) => Some(name_stem(name.as_str())),
        None => None,
    }
}

/// The extension of a path's file name: `Path::extension`.
pub fn file_extension(path: &str) -> (res: Option<String>)
    ensures
        opt_str_view(res) == path_extension(path@),
{
    match file_name_of(path) {
        Some(name) => name_extension(name.as_str()),
        None => None,
    }
}

} // verus!
