use vstd::prelude::*;
use vstd::string::*;

use crate::platform::OS;

verus! {

/// Whether `c` separates path components: `/`, and on Windows `\` too.
pub open spec fn is_path_sep(os: OS, c: char) -> bool {
    c == '/' || (os == OS::Windows && c == '\\')
}

/// The length of a path's prefix: a drive such as `C:` on Windows, none
/// elsewhere.
pub open spec fn prefix_len(os: OS, p: Seq<char>) -> int {
    if os == OS::Windows && p.len() >= 2 && p[1] == ':' && (('a' <= p[0] && p[0] <= 'z') || (
    'A' <= p[0] && p[0] <= 'Z')) {
        2
    } else {
        0
    }
}

/// The length of a path's prefix and root separator, the part that names no
/// component.
pub open spec fn root_len(os: OS, p: Seq<char>) -> int {
    let pl = prefix_len(os, p);
    if p.len() > pl && is_path_sep(os, p[pl]) {
        pl + 1
    } else {
        pl
    }
}

/// Where the last component of `p[..e]` starts: just after its last separator
/// past the root, or at the end of the root.
pub open spec fn component_start(os: OS, p: Seq<char>, e: int) -> int
    decreases e,
{
    if e <= root_len(os, p) {
        root_len(os, p)
    } else if is_path_sep(os, p[e - 1]) {
        e
    } else {
        component_start(os, p, e - 1)
    }
}

/// The end of `p[..e]` once trailing separators and trailing `.` components
/// (other than a leading `.`) are dropped, never cutting into the root.
pub open spec fn trimmed_end(os: OS, p: Seq<char>, e: int) -> int
    decreases e,
{
    if e <= root_len(os, p) {
        e
    } else if is_path_sep(os, p[e - 1]) {
        trimmed_end(os, p, e - 1)
    } else {
        let k = component_start(os, p, e);
        if e - k == 1 && p[k] == '.' && k > 0 {
            trimmed_end(os, p, k)
        } else {
            e
        }
    }
}

/// The parent of a path as `Path::parent` reads it: the path without its last
/// component and the separators before it; `None` for an empty path or one
/// that is only a root or a prefix.
pub open spec fn path_parent(os: OS, p: Seq<char>) -> Option<Seq<char>> {
    let q = trimmed_end(os, p, p.len() as int);
    if q <= root_len(os, p) {
        None
    } else {
        Some(p.subrange(0, trimmed_end(os, p, component_start(os, p, q))))
    }
}

fn is_sep_exec(os: OS, c: char) -> (r: bool)
    ensures
        r == is_path_sep(os, c),
{
    c == '/' || (os == OS::Windows && c == '\\')
}

fn root_len_exec(os: OS, p: &str) -> (r: usize)
    ensures
        r as int == root_len(os, p@),
        r <= p@.len(),
{
    let n = p.unicode_len();
    let mut pl: usize = 0;
    if os == OS::Windows && n >= 2 {
        let c0 = p.get_char(0);
        if p.get_char(1) == ':' && (('a' <= c0 && c0 <= 'z') || ('A' <= c0 && c0 <= 'Z')) {
            pl = 2;
        }
    }
    if n > pl && is_sep_exec(os, p.get_char(pl)) {
        pl + 1
    } else {
        pl
    }
}

fn component_start_exec(os: OS, p: &str, rl: usize, e: usize) -> (r: usize)
    requires
        rl as int == root_len(os, p@),
        e <= p@.len(),
    ensures
        r as int == component_start(os, p@, e as int),
        rl <= r,
        e > rl ==> r <= e,
{
    if e <= rl {
        return rl;
    }
    let mut j: usize = e;
    while j > rl && !is_sep_exec(os, p.get_char(j - 1))
        invariant
            rl as int == root_len(os, p@),
            rl <= j <= e <= p@.len(),
            component_start(os, p@, e as int) == component_start(os, p@, j as int),
        decreases j,
    {
        j = j - 1;
    }
    j
}

fn trimmed_end_exec(os: OS, p: &str, rl: usize, e: usize) -> (r: usize)
    requires
        rl as int == root_len(os, p@),
        e <= p@.len(),
    ensures
        r as int == trimmed_end(os, p@, e as int),
        r <= e,
{
    let mut j: usize = e;
    loop
        invariant
            rl as int == root_len(os, p@),
            j <= e <= p@.len(),
            trimmed_end(os, p@, e as int) == trimmed_end(os, p@, j as int),
        decreases j,
    {
        if j <= rl {
            return j;
        }
        if is_sep_exec(os, p.get_char(j - 1)) {
            j = j - 1;
        } else {
            let k = component_start_exec(os, p, rl, j);
            if j - k == 1 && p.get_char(k) == '.' && k > 0 {
                j = k;
            } else {
                return j;
            }
        }
    }
}

/// The parent directory of `path`, as `Path::parent` gives it.
pub fn parent_of(os: OS, path: &str) -> (r: Option<String>)
    ensures
        match path_parent(os, path@) {
            Some(d) => r is Some && r->Some_0@ == d,
            None => r is None,
        },
{
    let n = path.unicode_len();
    let rl = root_len_exec(os, path);
    let q = trimmed_end_exec(os, path, rl, n);
    if q <= rl {
        None
    } else {
        let k = component_start_exec(os, path, rl, q);
        let end = trimmed_end_exec(os, path, rl, k);
        Some(String::from_str(path.substring_char(0, end)))
    }
}

} // verus!
