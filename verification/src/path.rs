//! Paths as text: joining a directory with a name, and a path's extension.

use vstd::prelude::*;
use vstd::string::*;
use crate::text::{chars_of, option_text, string_of};

verus! {

/// The index of the last `c` in `s`, or -1 where there is none.
pub open spec fn last_index_of(s: Seq<char>, c: char) -> int
    decreases s.len(),
{
    if s.len() == 0 {
        -1
    } else if s.last() == c {
        s.len() - 1
    } else {
        last_index_of(s.drop_last(), c)
    }
}

/// The last component of a path: what follows its last slash.
pub open spec fn file_name(path: Seq<char>) -> Seq<char> {
    path.skip(last_index_of(path, '/') + 1)
}

/// The extension of a path: what follows the last dot of its file name.
/// There is none where the file name has no dot, where its only dot is its
/// first character, or where it is `..`.
pub open spec fn extension(path: Seq<char>) -> Option<Seq<char>> {
    let name = file_name(path);
    let dot = last_index_of(name, '.');
    if dot <= 0 || name == seq!['.', '.'] {
        None
    } else {
        Some(name.skip(dot + 1))
    }
}

/// The path of `name` inside the directory `dir`. A name that starts with a
/// slash is a path of its own; a separator is put in where `dir` does not end
/// with one.
pub open spec fn join(dir: Seq<char>, name: Seq<char>) -> Seq<char> {
    if name.len() > 0 && name[0] == '/' {
        name
    } else if dir.len() == 0 || dir.last() == '/' {
        dir + name
    } else {
        dir + seq!['/'] + name
    }
}

/// The last index of `c` at or after `start`.
fn last_index(v: &Vec<char>, start: usize, c: char) -> (r: Option<usize>)
    requires
        start <= v.len(),
    ensures
        match r {
            Some(i) => start <= i < v.len() && v@[i as int] == c && last_index_of(
                v@.skip(start as int),
                c,
            ) == i - start,
            None => last_index_of(v@.skip(start as int), c) == -1,
        },
{
    let ghost tail = v@.skip(start as int);
    let mut i: usize = v.len();
    assert(tail.take((i - start) as int) =~= tail);
    while i > start
        invariant
            start <= i <= v.len(),
            tail == v@.skip(start as int),
            last_index_of(tail, c) == last_index_of(tail.take((i - start) as int), c),
        decreases i,
    {
        let ghost head = tail.take((i - start) as int);
        assert(head.last() == v[i - 1]);
        if v[i - 1] == c {
            return Some(i - 1);
        }
        assert(head.drop_last() =~= tail.take((i - 1 - start) as int));
        i -= 1;
    }
    None
}

/// The path of `name` inside the directory `dir`.
pub fn join_path(dir: &str, name: &str) -> (joined: String)
    ensures
        joined@ == join(dir@, name@),
{
    let dir_len: usize = dir.unicode_len();
    let name_len: usize = name.unicode_len();
    if name_len > 0 && name.get_char(0) == '/' {
        name.to_owned()
    } else if dir_len == 0 || dir.get_char(dir_len - 1) == '/' {
        let mut joined = dir.to_owned();
        joined.append(name);
        joined
    } else {
        let mut joined = dir.to_owned();
        joined.push('/');
        joined.append(name);
        joined
    }
}

/// The extension of `path`, if it has one.
pub fn extension_of(path: &str) -> (r: Option<String>)
    ensures
        option_text(r) == extension(path@),
{
    let v = chars_of(path);
    let len: usize = v.len();
    assert(v@.skip(0) =~= v@);
    let start: usize = match last_index(&v, 0, '/') {
        Some(slash) => slash + 1,
        None => 0,
    };
    let ghost name = v@.skip(start as int);
    assert(name == file_name(path@));
    match last_index(&v, start, '.') {
        None => None,
        Some(dot) => {
            if dot == start {
                None
            } else if len - start == 2 && v[start] == '.' {
                assert(v[start + 1] == '.');
                assert(name =~= seq!['.', '.']);
                None
            } else {
                assert(!(name =~= seq!['.', '.'])) by {
                    if name =~= seq!['.', '.'] {
                        assert(name.len() == 2);
                        assert(name[0] == '.');
                    }
                }
                assert(name.skip(dot - start + 1) =~= v@.subrange(dot + 1, len as int));
                Some(string_of(&v, dot + 1, len))
            }
        },
    }
}

/// Whether the extension of `path` is exactly `ext`.
pub fn has_extension(path: &str, ext: &String) -> (b: bool)
    ensures
        b == (extension(path@) == Some(ext@)),
{
    match extension_of(path) {
        Some(found) => found == *ext,
        None => false,
    }
}

} // verus!
