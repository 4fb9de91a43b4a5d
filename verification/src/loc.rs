//! Locations of files and directories of a project.

use vstd::prelude::*;
use vstd::string::StrSliceExecFns;

verus! {

/// Contains a location of a file or directory of a project.
///
/// It must be implemented by the host application, since resolving
/// paths is project specific.
pub trait Location: Sized {
    /// Returns the location of the root directory of a project.
    ///
    /// The name `root` is deliberately left vacant for
    /// implementations, which use it often and would otherwise have
    /// to bring this trait into scope at every call.
    fn apex() -> Self;

    /// The path, as a string.
    fn as_path(&self) -> String;

    /// Formats the path for printing, relative to the root directory
    /// of the project; [`display_relative`](display_relative) does
    /// this for slash-separated paths.
    fn display(&self) -> String;
}

/// Index of the last `'/'` in a path, or `-1` when it has none.
pub open spec fn last_slash(p: Seq<char>) -> int
    decreases p.len(),
{
    if p.len() == 0 {
        -1
    } else if p.last() == '/' {
        p.len() - 1
    } else {
        last_slash(p.drop_last())
    }
}

/// What [`display_relative`](display_relative) returns: the path with
/// the apex's parent directory stripped.
pub open spec fn display_relative_spec(path: Seq<char>, apex: Seq<char>) -> Seq<char> {
    let ls = last_slash(apex);
    if ls <= 0 {
        path
    } else {
        let parent = apex.subrange(0, ls);
        if path == parent {
            Seq::<char>::empty()
        } else if path.len() > ls && path.subrange(0, ls) == parent && path[ls] == '/' {
            path.subrange(ls + 1, path.len() as int)
        } else {
            path
        }
    }
}

fn find_last_slash(p: &str) -> (r: Option<usize>)
    ensures
        match r {
            Some(i) => i as int == last_slash(p@) && i < p@.len(),
            None => last_slash(p@) == -1,
        },
{
    let n = p.unicode_len();
    let mut i = n;
    proof {
        assert(p@.subrange(0, n as int) =~= p@);
    }
    while i > 0
        invariant
            i <= n,
            n == p@.len(),
            last_slash(p@) == last_slash(p@.subrange(0, i as int)),
        decreases i,
    {
        let c = p.get_char(i - 1);
        let ghost cur = p@.subrange(0, i as int);
        proof {
            assert(cur.last() == p@[i - 1]);
            assert(cur.drop_last() =~= p@.subrange(0, i - 1));
        }
        if c == '/' {
            return Some(i - 1);
        }
        i = i - 1;
    }
    proof {
        assert(p@.subrange(0, 0) =~= Seq::<char>::empty());
    }
    None
}

/// Formats a path relative to the parent directory of the project
/// apex, so that the printed path starts with the project's own
/// directory name. A path outside the apex's parent, or an apex
/// without a usable parent, is handed back unchanged.
pub fn display_relative(path: &str, apex: &str) -> (r: String)
    ensures
        r@ == display_relative_spec(path@, apex@),
{
    let ls_opt = find_last_slash(apex);
    let ls = match ls_opt {
        None => {
            return path.to_owned();
        },
        Some(i) => i,
    };
    if ls == 0 {
        return path.to_owned();
    }
    let parent: String = apex.substring_char(0, ls).to_owned();
    let n = path.unicode_len();
    let path_owned: String = path.to_owned();
    if path_owned == parent {
        proof {
            assert(path@ == apex@.subrange(0, ls as int));
        }
        return String::new();
    }
    if n > ls {
        let prefix: String = path.substring_char(0, ls).to_owned();
        if prefix == parent && path.get_char(ls) == '/' {
            return path.substring_char(ls + 1, n).to_owned();
        }
    }
    path.to_owned()
}

} // verus!
