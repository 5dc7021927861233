//! Paths as text.
//!
//! A path is the sequence of its characters, with `/` between its
//! components. The functions here neither touch the filesystem nor tidy a
//! path up: they are meant for paths in normal form, as the system reports
//! the working directory and resolved files.

use vstd::prelude::*;

verus! {

/// The name of the configuration file of a project.
pub const CONFIG_FILE: &'static str = "pyproject.toml";

/// Whether `path` starts at the root.
pub open spec fn is_absolute(path: Seq<char>) -> bool {
    path.len() > 0 && path[0] == '/'
}

/// `fragment` read from the directory `base`: an absolute fragment stands
/// for itself, any other is put behind `base`, after a separator if `base`
/// does not end in one.
pub open spec fn join(base: Seq<char>, fragment: Seq<char>) -> Seq<char> {
    if is_absolute(fragment) || base.len() == 0 {
        fragment
    } else if base.last() == '/' {
        base + fragment
    } else {
        base + seq!['/'] + fragment
    }
}

/// Where the last separator of `path` stands, or -1 if it has none.
pub open spec fn last_separator(path: Seq<char>) -> int
    decreases path.len(),
{
    if path.len() == 0 {
        -1
    } else if path.last() == '/' {
        path.len() - 1
    } else {
        last_separator(path.drop_last())
    }
}

/// The directory that holds `path`: what stands before its last separator.
/// The root and the empty path have none; a path without a separator lies
/// in the empty path, which stands for the working directory.
pub open spec fn parent(path: Seq<char>) -> Option<Seq<char>> {
    let cut = last_separator(path);
    if path.len() == 0 {
        None
    } else if cut < 0 {
        Some(Seq::empty())
    } else if cut > 0 {
        Some(path.take(cut))
    } else if path.len() == 1 {
        None
    } else {
        Some(seq!['/'])
    }
}

/// The last separator stands inside the path, and no separator follows it.
pub proof fn lemma_last_separator(path: Seq<char>)
    ensures
        -1 <= last_separator(path) < path.len(),
        last_separator(path) >= 0 ==> path[last_separator(path)] == '/',
        forall|i: int| last_separator(path) < i < path.len() ==> path[i] != '/',
    decreases path.len(),
{
    if path.len() > 0 && path.last() != '/' {
        let front = path.drop_last();
        lemma_last_separator(front);
        assert forall|i: int| last_separator(path) < i < path.len() implies path[i] != '/' by {
            if i < front.len() {
                assert(front[i] == path[i]);
            }
        }
    }
}

/// A parent is shorter than its child, so the way up ends.
pub proof fn lemma_parent_is_shorter(path: Seq<char>)
    ensures
        parent(path) matches Some(dir) ==> dir.len() < path.len(),
{
    lemma_last_separator(path);
}

/// A file put into a directory lies in that directory, as long as the
/// directory is not written with a separator at its end (the root is).
pub proof fn lemma_parent_of_join(dir: Seq<char>, name: Seq<char>)
    requires
        name.len() > 0,
        !name.contains('/'),
        dir.len() <= 1 || dir.last() != '/',
    ensures
        parent(join(dir, name)) == Some(dir),
{
    let path = join(dir, name);
    assert(name[0] != '/') by {
        assert(name.contains(name[0]));
    }
    lemma_last_separator(path);
    if dir.len() == 0 {
        assert forall|i: int| 0 <= i < path.len() implies path[i] != '/' by {
            assert(name.contains(path[i]));
        }
        assert(dir =~= Seq::empty());
    } else {
        let cut = if dir.last() == '/' {
            0int
        } else {
            dir.len() as int
        };
        assert(path[cut] == '/');
        assert forall|i: int| cut < i < path.len() implies path[i] != '/' by {
            assert(name.contains(path[i]));
        }
        assert(last_separator(path) == cut);
        if cut > 0 {
            assert(path.take(cut) =~= dir);
        } else {
            assert(dir =~= seq!['/']);
        }
    }
}

/// Joins `fragment` to the directory `base`.
pub fn join_path(base: &str, fragment: &str) -> (joined: String)
    ensures
        joined@ == join(base@, fragment@),
{
    let base_len = base.unicode_len();
    let fragment_len = fragment.unicode_len();
    if base_len == 0 || (fragment_len > 0 && fragment.get_char(0) == '/') {
        return fragment.to_owned();
    }
    let mut joined = base.to_owned();
    if base.get_char(base_len - 1) != '/' {
        proof {
            reveal_strlit("/");
            assert("/"@ =~= seq!['/']);
        }
        joined.append("/");
    }
    joined.append(fragment);
    joined
}

/// Where the last separator of `path` stands, if it has one.
pub fn find_last_separator(path: &str) -> (found: Option<usize>)
    ensures
        match found {
            Some(at) => at == last_separator(path@),
            None => last_separator(path@) == -1,
        },
{
    let len = path.unicode_len();
    let mut found: Option<usize> = None;
    let mut at: usize = 0;
    for c in it: path.chars()
        invariant
            it.seq() == path@,
            len == path@.len(),
            at == it.index(),
            match found {
                Some(last) => last == last_separator(path@.take(at as int)),
                None => last_separator(path@.take(at as int)) == -1,
            },
    {
        proof {
            let upto = path@.take(at + 1);
            assert(upto.drop_last() =~= path@.take(at as int));
            assert(upto.last() == c);
        }
        if c == '/' {
            found = Some(at);
        }
        at = at + 1;
    }
    assert(path@.take(at as int) =~= path@);
    found
}

/// The directory that holds `path`, if it has one.
pub fn parent_dir(path: &str) -> (dir: Option<String>)
    ensures
        match dir {
            Some(d) => parent(path@) == Some(d@),
            None => parent(path@) is None,
        },
{
    let len = path.unicode_len();
    if len == 0 {
        return None;
    }
    proof {
        lemma_last_separator(path@);
    }
    match find_last_separator(path) {
        None => Some(String::new()),
        Some(cut) => {
            if cut > 0 {
                Some(path.substring_char(0, cut).to_owned())
            } else if len == 1 {
                None
            } else {
                proof {
                    reveal_strlit("/");
                    assert("/"@ =~= seq!['/']);
                }
                Some("/".to_owned())
            }
        },
    }
}

} // verus!
