use vstd::prelude::*;

use crate::http::opt_view;
use crate::text::{ends_with, find_char, first_index_of, has_suffix, str_eq};

verus! {

/// Position of the last `/` of a path, or -1 when there is none.
pub open spec fn last_slash(p: Seq<char>) -> int
    decreases p.len(),
{
    if p.len() == 0 {
        -1
    } else if p.last() == '/' {
        p.len() - 1
    } else {
        last_slash(p.drop_last())
    }
}

/// Where the last `/` of a path can be.
pub proof fn lemma_last_slash_bounds(p: Seq<char>)
    ensures
        -1 <= last_slash(p) < p.len(),
        last_slash(p) >= 0 ==> p[last_slash(p)] == '/',
        forall|j: int| last_slash(p) < j < p.len() ==> p[j] != '/',
    decreases p.len(),
{
    if p.len() > 0 && p.last() != '/' {
        lemma_last_slash_bounds(p.drop_last());
        assert forall|j: int| last_slash(p) < j < p.len() implies p[j] != '/' by {
            if j < p.len() - 1 {
                assert(p.drop_last()[j] == p[j]);
            }
        }
    }
}

/// The name a Unix path ends with: its last component that is not `.`, ignoring
/// repeated and trailing separators; nothing when that component is `..` or when there
/// is no such component.
pub open spec fn file_name_of(p: Seq<char>) -> Option<Seq<char>>
    decreases p.len(),
{
    if p.len() == 0 {
        None
    } else if p.last() == '/' {
        file_name_of(p.drop_last())
    } else {
        let k = last_slash(p) + 1;
        let seg = p.subrange(k, p.len() as int);
        if seg == "."@ {
            proof {
                lemma_last_slash_bounds(p);
            }
            file_name_of(p.subrange(0, k))
        } else if seg == ".."@ {
            None
        } else {
            Some(seg)
        }
    }
}

/// The part of a file name before its first dot.
pub open spec fn stem_of(name: Seq<char>) -> Seq<char> {
    match first_index_of(name, '.') {
        Some(i) => name.subrange(0, i),
        None => name,
    }
}

/// The page a stored file holds, named after the file: the part of its name before the
/// first dot.
pub open spec fn uuid_of_path(p: Seq<char>) -> Option<Seq<char>> {
    match file_name_of(p) {
        Some(n) => Some(stem_of(n)),
        None => None,
    }
}

fn last_slash_exec(p: &str, n: usize) -> (r: Option<usize>)
    requires
        n <= p@.len(),
    ensures
        match r {
            Some(i) => last_slash(p@.subrange(0, n as int)) == i as int && i < n,
            None => last_slash(p@.subrange(0, n as int)) == -1,
        },
    decreases n,
{
    if n == 0 {
        None
    } else if p.get_char(n - 1) == '/' {
        Some(n - 1)
    } else {
        let r = last_slash_exec(p, n - 1);
        assert(p@.subrange(0, n as int).drop_last() =~= p@.subrange(0, n - 1));
        r
    }
}

fn file_name_prefix(p: &str, n: usize) -> (r: Option<String>)
    requires
        n <= p@.len(),
    ensures
        opt_view(r) == file_name_of(p@.subrange(0, n as int)),
    decreases n,
{
    let ghost q = p@.subrange(0, n as int);
    if n == 0 {
        None
    } else if p.get_char(n - 1) == '/' {
        assert(q.drop_last() =~= p@.subrange(0, n - 1));
        file_name_prefix(p, n - 1)
    } else {
        let k: usize = match last_slash_exec(p, n) {
            Some(i) => i + 1,
            None => 0,
        };
        proof {
            lemma_last_slash_bounds(q);
        }
        let seg = p.substring_char(k, n);
        assert(seg@ =~= q.subrange(k as int, q.len() as int));
        if str_eq(seg, ".") {
            assert(q.subrange(0, k as int) =~= p@.subrange(0, k as int));
            file_name_prefix(p, k)
        } else if str_eq(seg, "..") {
            None
        } else {
            Some(String::from_str(seg))
        }
    }
}

/// The name a Unix path ends with, as `Path::file_name` gives it.
pub fn file_name(p: &str) -> (r: Option<String>)
    ensures
        opt_view(r) == file_name_of(p@),
{
    let n = p.unicode_len();
    assert(p@.subrange(0, n as int) =~= p@);
    file_name_prefix(p, n)
}

/// The page a stored file holds: the part of its name before the first dot.
pub fn uuid_from_path(p: &str) -> (r: Option<String>)
    ensures
        opt_view(r) == uuid_of_path(p@),
{
    match file_name(p) {
        None => None,
        Some(name) => {
            match find_char(name.as_str(), '.') {
                Some(i) => Some(String::from_str(name.as_str().substring_char(0, i))),
                None => Some(name),
            }
        },
    }
}

/// The file holds a page: its name ends with `.nebo`.
pub fn is_nebo_file(name: &str) -> (r: bool)
    ensures
        r == has_suffix(name@, ".nebo"@),
{
    ends_with(name, ".nebo")
}

} // verus!
