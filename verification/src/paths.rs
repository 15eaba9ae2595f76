//! Paths as texts: joining a directory and a name, and a path's extension.

use vstd::prelude::*;
use crate::text::{chars_of, concat2};

verus! {

/// The path of `name` inside `dir`: an absolute `name` stands for itself;
/// otherwise `name` follows `dir`, with one `/` between them unless `dir` is
/// empty or ends in one.
pub open spec fn joined_path(dir: Seq<char>, name: Seq<char>) -> Seq<char> {
    if name.len() > 0 && name[0] == '/' {
        name
    } else if dir.len() == 0 || dir.last() == '/' {
        dir + name
    } else {
        dir + seq!['/'] + name
    }
}

/// The path of `name` inside `dir`.
pub fn join_path(dir: &str, name: &str) -> (r: String)
    ensures
        r@ == joined_path(dir@, name@),
{
    let d = chars_of(dir);
    let n = chars_of(name);
    if n.len() > 0 && n[0] == '/' {
        String::from_str(name)
    } else if d.len() == 0 || d[d.len() - 1] == '/' {
        concat2(dir, name)
    } else {
        proof {
            reveal_strlit("/");
            assert("/"@ =~= seq!['/']);
        }
        concat2(dir, "/").concat(name)
    }
}


/// The length of `path` without what trails its final component: slashes,
/// and points that stand alone after a slash.
pub open spec fn trimmed_len(path: Seq<char>) -> int
    decreases path.len(),
{
    if path.len() > 0 && (path.last() == '/' || (path.last() == '.' && path.len() >= 2
        && path[path.len() - 2] == '/')) {
        trimmed_len(path.drop_last())
    } else {
        path.len() as int
    }
}

/// The index of the last `c` in `s`, or -1 where there is none.
pub open spec fn last_index_of(s: Seq<char>, c: char) -> int
    decreases s.len(),
{
    if s.len() == 0 {
        -1
    } else if s.last() == c {
        s.len() - 1
    } else {
        last_index_of(s.drop_last(), c)
    }
}

/// The final component of a path: what stands after its last slash, once
/// trailing slashes and lone points are set aside.
pub open spec fn file_name_of(path: Seq<char>) -> Seq<char> {
    let p = path.take(trimmed_len(path));
    p.skip(last_index_of(p, '/') + 1)
}

/// The extension of a path: what stands after the last point of its final
/// component. There is none where the component has no point, where its
/// only point leads it, and where it is `..`.
pub open spec fn extension_of(path: Seq<char>) -> Option<Seq<char>> {
    let name = file_name_of(path);
    let dot = last_index_of(name, '.');
    if name == seq!['.', '.'] || dot <= 0 {
        None
    } else {
        Some(name.skip(dot + 1))
    }
}

/// The trimmed length lies within the path.
pub proof fn lemma_trimmed_len_bounds(path: Seq<char>)
    ensures
        0 <= trimmed_len(path) <= path.len(),
    decreases path.len(),
{
    if path.len() > 0 && (path.last() == '/' || (path.last() == '.' && path.len() >= 2
        && path[path.len() - 2] == '/')) {
        lemma_trimmed_len_bounds(path.drop_last());
    }
}

/// An index that holds `c`, with no `c` after it, is the last index of `c`;
/// and there is none where no character is `c`.
pub proof fn lemma_last_index_is(s: Seq<char>, c: char, at: int)
    requires
        -1 <= at < s.len(),
        at >= 0 ==> s[at] == c,
        forall|j: int| at < j < s.len() ==> s[j] != c,
    ensures
        last_index_of(s, c) == at,
    decreases s.len(),
{
    if s.len() > 0 && at < s.len() - 1 {
        assert(s.last() != c);
        lemma_last_index_is(s.drop_last(), c, at);
    }
}

/// The index of the last `c` in `s[from..to]`, counted from `from`, or
/// `None` where there is none.
fn find_last(s: &Vec<char>, from: usize, to: usize, c: char) -> (r: Option<usize>)
    requires
        from <= to <= s.len(),
    ensures
        r matches Some(at) ==> at + from < to && last_index_of(
            s@.subrange(from as int, to as int),
            c,
        ) == at,
        r is None ==> last_index_of(s@.subrange(from as int, to as int), c) == -1,
{
    let ghost part = s@.subrange(from as int, to as int);
    let mut at: usize = to;
    while at > from
        invariant
            from <= at <= to <= s.len(),
            part == s@.subrange(from as int, to as int),
            forall|j: int| at - from <= j < part.len() ==> part[j] != c,
        decreases at - from,
    {
        if s[at - 1] == c {
            proof {
                assert(part[at - 1 - from] == s@[at - 1]);
                lemma_last_index_is(part, c, at - 1 - from);
            }
            return Some(at - 1 - from);
        }
        assert(part[at - 1 - from] == s@[at - 1]);
        at -= 1;
    }
    proof {
        lemma_last_index_is(part, c, -1);
    }
    None
}

/// The extension of a path, if it has one.
pub fn extension(path: &str) -> (r: Option<String>)
    ensures
        r matches Some(ext) ==> extension_of(path@) == Some(ext@),
        r is None ==> extension_of(path@) is None,
{
    let s = chars_of(path);
    let mut end: usize = s.len();
    assert(s@.take(end as int) =~= s@);
    while end > 0 && (s[end - 1] == '/' || (s[end - 1] == '.' && end >= 2 && s[end - 2] == '/'))
        invariant
            end <= s.len(),
            trimmed_len(s@) == trimmed_len(s@.take(end as int)),
        decreases end,
    {
        assert(s@.take(end as int).drop_last() =~= s@.take(end - 1));
        end -= 1;
    }
    assert(trimmed_len(s@.take(end as int)) == end);
    let start: usize = match find_last(&s, 0, end, '/') {
        Some(slash) => slash + 1,
        None => 0,
    };
    proof {
        assert(s@.subrange(0, end as int) =~= s@.take(end as int));
        assert(s@.take(end as int).skip(start as int) =~= s@.subrange(start as int, end as int));
    }
    let ghost name = s@.subrange(start as int, end as int);
    assert(name == file_name_of(path@));
    if end - start == 2 && s[start] == '.' && s[start + 1] == '.' {
        assert(name =~= seq!['.', '.']);
        return None;
    }
    assert(name != seq!['.', '.']) by {
        if name.len() == 2 {
            assert(name[0] == s@[start as int]);
            assert(name[1] == s@[start + 1]);
            assert(seq!['.', '.'][0] == '.');
            assert(seq!['.', '.'][1] == '.');
        }
    }
    match find_last(&s, start, end, '.') {
        Some(dot) => {
            if dot == 0 {
                None
            } else {
                assert(name.skip(dot + 1) =~= path@.subrange(start + dot + 1, end as int));
                Some(String::from_str(path.substring_char(start + dot + 1, end)))
            }
        },
        None => None,
    }
}

} // verus!
