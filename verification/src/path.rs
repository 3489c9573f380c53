//! Paths as text. A path is a string whose components are separated by `/`;
//! a path that begins with `/` is absolute.

use crate::text::chars_of;
use vstd::prelude::*;

verus! {

/// `leaf` seen from `base`: an absolute `leaf` stands for itself, any other is
/// put behind `base`, with one separator between them unless `base` is empty or
/// already ends in one.
pub open spec fn join_spec(base: Seq<char>, leaf: Seq<char>) -> Seq<char> {
    if leaf.len() > 0 && leaf[0] == '/' {
        leaf
    } else if base.len() == 0 || base.last() == '/' {
        base + leaf
    } else {
        base + seq!['/'] + leaf
    }
}

/// Resolves `leaf` relative to `base`.
pub fn join(base: &str, leaf: &str) -> (r: String)
    ensures
        r@ == join_spec(base@, leaf@),
{
    if leaf.unicode_len() > 0 && leaf.get_char(0) == '/' {
        return String::from_str(leaf);
    }
    let base_len: usize = base.unicode_len();
    let mut path = String::from_str(base);
    if base_len > 0 && base.get_char(base_len - 1) != '/' {
        proof {
            reveal_strlit("/");
            assert("/"@ =~= seq!['/']);
        }
        path.append("/");
    }
    path.append(leaf);
    path
}

/// Length of `path` once trailing separators and trailing `.` components are
/// left off.
pub open spec fn trimmed_len(path: Seq<char>) -> nat
    decreases path.len(),
{
    if path.len() == 0 {
        0
    } else if path.last() == '/' {
        trimmed_len(path.drop_last())
    } else if path.last() == '.' && path.len() >= 2 && path[path.len() - 2] == '/' {
        trimmed_len(path.drop_last())
    } else {
        path.len()
    }
}

/// Where the last component of `path` begins: behind its last separator, or at
/// the front where it has none.
pub open spec fn component_start(path: Seq<char>) -> nat
    decreases path.len(),
{
    if path.len() == 0 || path.last() == '/' {
        path.len()
    } else {
        component_start(path.drop_last())
    }
}

/// Index of the last `.` in `name`.
pub open spec fn last_dot(name: Seq<char>) -> Option<nat>
    decreases name.len(),
{
    if name.len() == 0 {
        None
    } else if name.last() == '.' {
        Some((name.len() - 1) as nat)
    } else {
        last_dot(name.drop_last())
    }
}

/// Length of the stem of a file name: what stands before its last `.`, or the
/// whole name where it has no `.` or only a leading one.
pub open spec fn stem_len(name: Seq<char>) -> nat {
    match last_dot(name) {
        Some(dot) => if dot > 0 {
            dot
        } else {
            name.len()
        },
        None => name.len(),
    }
}

/// Where the file name of `path` begins and ends. A path has no file name when
/// it is empty, names only the root or the current directory, or ends in `..`.
pub open spec fn file_name_span(path: Seq<char>) -> Option<(nat, nat)> {
    let end = trimmed_len(path);
    let start = component_start(path.take(end as int));
    let name = path.subrange(start as int, end as int);
    if end == 0 || name == seq!['.'] || name == seq!['.', '.'] {
        None
    } else {
        Some((start, end))
    }
}

/// `path` with the extension of its file name replaced by `extension`, or
/// given one where it had none. What follows the file name (separators, `.`
/// components) is dropped. A path without a file name stays as it is, and an
/// empty `extension` leaves the stem alone.
pub open spec fn with_extension_spec(path: Seq<char>, extension: Seq<char>) -> Seq<char> {
    match file_name_span(path) {
        None => path,
        Some((start, end)) => {
            let stem = path.take(
                (start + stem_len(path.subrange(start as int, end as int))) as int,
            );
            if extension.len() == 0 {
                stem
            } else {
                stem + seq!['.'] + extension
            }
        },
    }
}

/// Replaces the extension of the file that `path` names.
pub fn with_extension(path: &str, extension: &str) -> (r: String)
    ensures
        r@ == with_extension_spec(path@, extension@),
{
    let c = chars_of(path);
    let n: usize = c.len();
    let mut end: usize = n;
    assert(path@.take(n as int) =~= path@);
    while end > 0 && (c[end - 1] == '/' || (c[end - 1] == '.' && end >= 2 && c[end - 2] == '/'))
        invariant
            c@ == path@,
            end <= n == c@.len(),
            trimmed_len(path@) == trimmed_len(path@.take(end as int)),
        decreases end,
    {
        proof {
            assert(path@.take(end as int).drop_last() =~= path@.take(end - 1));
            assert(path@.take(n as int) =~= path@);
        }
        end -= 1;
    }
    assert(trimmed_len(path@) == end) by {
        assert(path@.take(n as int) =~= path@);
    }
    let mut start: usize = end;
    while start > 0 && c[start - 1] != '/'
        invariant
            c@ == path@,
            start <= end <= n == c@.len(),
            component_start(path@.take(end as int)) == component_start(path@.take(start as int)),
        decreases start,
    {
        proof {
            assert(path@.take(start as int).drop_last() =~= path@.take(start - 1));
        }
        start -= 1;
    }
    let ghost name = path@.subrange(start as int, end as int);
    let dot_only = end - start == 1 && c[start] == '.';
    let dot_dot = end - start == 2 && c[start] == '.' && c[start + 1] == '.';
    proof {
        if dot_only {
            assert(name =~= seq!['.']);
        }
        if dot_dot {
            assert(name =~= seq!['.', '.']);
        }
        if name == seq!['.'] {
            assert(name.len() == 1 && name[0] == '.');
        }
        if name == seq!['.', '.'] {
            assert(name.len() == 2 && name[0] == '.' && name[1] == '.');
        }
    }
    if end == 0 || dot_only || dot_dot {
        return String::from_str(path);
    }
    let mut dot: usize = end;
    assert(name.take(end - start) =~= name);
    while dot > start && c[dot - 1] != '.'
        invariant
            c@ == path@,
            start <= dot <= end <= n == c@.len(),
            name == path@.subrange(start as int, end as int),
            last_dot(name) == last_dot(name.take(dot - start)),
        decreases dot,
    {
        proof {
            assert(name.take(dot - start).drop_last() =~= name.take(dot - start - 1));
        }
        dot -= 1;
    }
    proof {
        assert(name.take((end - start) as int) =~= name);
    }
    let cut: usize = if dot > start + 1 {
        dot - 1
    } else {
        end
    };
    assert(cut == start + stem_len(name));
    let mut renamed = String::from_str(path.substring_char(0, cut));
    proof {
        assert(path@.subrange(0, cut as int) =~= path@.take(cut as int));
    }
    if !extension.is_empty() {
        proof {
            reveal_strlit(".");
            assert("."@ =~= seq!['.']);
        }
        renamed.append(".");
        renamed.append(extension);
    }
    renamed
}

} // verus!
