//! Finding the configuration file of a project.
//!
//! The launcher never asks the filesystem from here. What it has learnt of
//! the filesystem is handed over as a [`Filesystem`], and the search is a
//! function of that snapshot: the same snapshot gives the same answer.

use crate::error::{Failure, LaunchError};
use crate::grammar::Mode;
use crate::path::{
    is_absolute, join, join_path, lemma_last_separator, lemma_parent_is_shorter,
    lemma_parent_of_join, parent, parent_dir, CONFIG_FILE,
};
use crate::rpy::InvocationType;
use crate::text::same_text;
use vstd::prelude::*;

verus! {

/// What is known of the filesystem.
#[derive(Debug)]
pub struct Filesystem {
    /// The working directory, where it can be told.
    pub cwd: Option<String>,
    /// The paths that are regular files.
    pub files: Vec<String>,
    /// The paths that resolve, each with the path in normal form that it
    /// resolves to. Of two entries for one path the first counts.
    pub resolved: Vec<(String, String)>,
}

/// The mathematical value of a [`Filesystem`].
pub struct Snapshot {
    /// The working directory, where it can be told.
    pub cwd: Option<Seq<char>>,
    /// The paths that are regular files.
    pub files: Set<Seq<char>>,
    /// The paths that resolve, each with the path that it resolves to.
    pub canonical: Map<Seq<char>, Seq<char>>,
}

/// What the first entry for `path` resolves it to.
pub open spec fn first_entry(entries: Seq<(Seq<char>, Seq<char>)>, path: Seq<char>) -> Option<
    Seq<char>,
>
    decreases entries.len(),
{
    if entries.len() == 0 {
        None
    } else if entries[0].0 == path {
        Some(entries[0].1)
    } else {
        first_entry(entries.drop_first(), path)
    }
}

impl View for Filesystem {
    type V = Snapshot;

    open spec fn view(&self) -> Snapshot {
        Snapshot {
            cwd: self.cwd.deep_view(),
            files: Set::new(|path: Seq<char>| self.files.deep_view().contains(path)),
            canonical: Map::new(
                |path: Seq<char>| first_entry(self.resolved.deep_view(), path) is Some,
                |path: Seq<char>| first_entry(self.resolved.deep_view(), path)->0,
            ),
        }
    }
}

impl Filesystem {
    /// Whether `path` is a regular file.
    pub fn is_file(&self, path: &str) -> (known: bool)
        ensures
            known == self@.files.contains(path@),
    {
        let mut i: usize = 0;
        while i < self.files.len()
            invariant
                i <= self.files.len(),
                forall|j: int| 0 <= j < i ==> self.files.deep_view()[j] != path@,
            decreases self.files.len() - i,
        {
            if same_text(self.files[i].as_str(), path) {
                assert(self.files.deep_view()[i as int] == path@);
                return true;
            }
            i = i + 1;
        }
        false
    }

    /// What `path` resolves to, if it resolves.
    pub fn canonicalize(&self, path: &str) -> (resolved: Option<String>)
        ensures
            match resolved {
                Some(target) => self@.canonical.contains_key(path@) && self@.canonical[path@]
                    == target@,
                None => !self@.canonical.contains_key(path@),
            },
    {
        let ghost entries = self.resolved.deep_view();
        let mut i: usize = 0;
        assert(entries.skip(0) =~= entries);
        while i < self.resolved.len()
            invariant
                i <= self.resolved.len(),
                entries == self.resolved.deep_view(),
                first_entry(entries, path@) == first_entry(entries.skip(i as int), path@),
            decreases self.resolved.len() - i,
        {
            proof {
                let rest = entries.skip(i as int);
                assert(rest[0] == entries[i as int]);
                assert(rest.drop_first() =~= entries.skip(i + 1));
            }
            if same_text(self.resolved[i].0.as_str(), path) {
                return Some(self.resolved[i].1.clone());
            }
            i = i + 1;
        }
        None
    }
}

/// The configuration file of the directory `dir`.
pub open spec fn config_in(dir: Seq<char>) -> Seq<char> {
    join(dir, CONFIG_FILE@)
}

/// `dir` and the directories above it, nearest first.
pub open spec fn ancestors(dir: Seq<char>) -> Seq<Seq<char>>
    decreases dir.len(),
{
    match parent(dir) {
        Some(up) => {
            proof {
                lemma_parent_is_shorter(dir);
            }
            seq![dir] + ancestors(up)
        },
        None => seq![dir],
    }
}

/// The configuration file of the nearest of `dir` and the directories above
/// it that has one among `files`.
pub open spec fn search(dir: Seq<char>, files: Set<Seq<char>>) -> Option<Seq<char>>
    decreases dir.len(),
{
    if files.contains(config_in(dir)) {
        Some(config_in(dir))
    } else {
        match parent(dir) {
            Some(up) => {
                proof {
                    lemma_parent_is_shorter(dir);
                }
                search(up, files)
            },
            None => None,
        }
    }
}

/// The directory from which the search starts: that of the script, resolved
/// and seen to be a regular file, where a script is run; the working
/// directory in every other mode.
pub open spec fn start_directory(mode: Mode, fs: Snapshot) -> Result<Seq<char>, Failure> {
    match mode {
        Mode::File(name) => {
            if fs.canonical.contains_key(name) && fs.files.contains(fs.canonical[name]) && parent(
                fs.canonical[name],
            ) is Some {
                Ok(parent(fs.canonical[name])->0)
            } else {
                Err(Failure::InputFileNotFound(name))
            }
        },
        _ => match fs.cwd {
            Some(dir) => Ok(dir),
            None => Err(Failure::WorkingDirectoryUnknown),
        },
    }
}

/// The configuration file for a launch in the given mode: the nearest one
/// at or above the start directory. Where there is none, the failure names
/// the start directory.
pub open spec fn find_config(mode: Mode, fs: Snapshot) -> Result<Seq<char>, Failure> {
    match start_directory(mode, fs) {
        Ok(start) => match search(start, fs.files) {
            Some(found) => Ok(found),
            None => Err(Failure::ConfigNotFound(start)),
        },
        Err(failure) => Err(failure),
    }
}

/// The way up from a path that starts at the root ends at the root, and
/// never leaves it.
pub proof fn lemma_ancestors_reach_root(dir: Seq<char>)
    requires
        is_absolute(dir),
    ensures
        ancestors(dir).last() == seq!['/'],
        forall|i: int| 0 <= i < ancestors(dir).len() ==> is_absolute(#[trigger] ancestors(dir)[i]),
    decreases dir.len(),
{
    lemma_last_separator(dir);
    match parent(dir) {
        Some(up) => {
            lemma_parent_is_shorter(dir);
            lemma_ancestors_reach_root(up);
            let above = ancestors(up);
            let chain = ancestors(dir);
            assert(chain =~= seq![dir] + above);
            assert forall|i: int| 0 <= i < chain.len() implies is_absolute(
                #[trigger] chain[i],
            ) by {
                if i > 0 {
                    assert(chain[i] == above[i - 1]);
                }
            }
            assert(chain.last() == above.last());
        },
        None => {
            assert(dir =~= seq!['/']);
        },
    }
}

/// The configuration file of a directory lies in that directory: the
/// project root is the directory that holds the file that was found.
pub proof fn lemma_config_lies_in_its_directory(dir: Seq<char>)
    requires
        dir.len() <= 1 || dir.last() != '/',
    ensures
        parent(config_in(dir)) == Some(dir),
{
    reveal_strlit("pyproject.toml");
    lemma_parent_of_join(dir, CONFIG_FILE@);
}

/// What the search finds is the configuration file of the nearest directory
/// that has one: that of `ancestors(dir)[i]`, where no directory before it
/// has one. It finds nothing exactly if none of them has one.
pub proof fn lemma_search_finds_nearest(dir: Seq<char>, files: Set<Seq<char>>)
    ensures
        match search(dir, files) {
            Some(found) => exists|i: int|
                0 <= i < ancestors(dir).len() && found == config_in(#[trigger] ancestors(dir)[i])
                    && files.contains(found) && forall|j: int|
                    0 <= j < i ==> !files.contains(config_in(#[trigger] ancestors(dir)[j])),
            None => forall|i: int|
                0 <= i < ancestors(dir).len() ==> !files.contains(
                    config_in(#[trigger] ancestors(dir)[i]),
                ),
        },
    decreases dir.len(),
{
    let chain = ancestors(dir);
    if files.contains(config_in(dir)) {
        assert(chain[0] == dir);
    } else {
        match parent(dir) {
            Some(up) => {
                lemma_parent_is_shorter(dir);
                lemma_search_finds_nearest(up, files);
                let above = ancestors(up);
                assert(chain =~= seq![dir] + above);
                assert forall|k: int| 0 <= k < above.len() implies chain[k + 1] == above[k] by {}
                match search(up, files) {
                    Some(found) => {
                        let i = choose|i: int|
                            0 <= i < above.len() && found == config_in(#[trigger] above[i])
                                && files.contains(found) && forall|j: int|
                                0 <= j < i ==> !files.contains(config_in(#[trigger] above[j]));
                        assert(chain[i + 1] == above[i]);
                        assert forall|j: int| 0 <= j < i + 1 implies !files.contains(
                            config_in(#[trigger] chain[j]),
                        ) by {
                            if j > 0 {
                                assert(chain[j] == above[j - 1]);
                            }
                        }
                    },
                    None => {
                        assert forall|i: int| 0 <= i < chain.len() implies !files.contains(
                            config_in(#[trigger] chain[i]),
                        ) by {
                            if i > 0 {
                                assert(chain[i] == above[i - 1]);
                            }
                        }
                    },
                }
            },
            None => {
                assert(chain =~= seq![dir]);
            },
        }
    }
}

/// Starting at a directory that has no configuration file, and none in any
/// directory above it up to the root, the search fails, and the failure
/// names the directory at which it started.
pub proof fn lemma_no_config_names_start(mode: Mode, fs: Snapshot, start: Seq<char>)
    requires
        start_directory(mode, fs) == Ok::<Seq<char>, Failure>(start),
        forall|i: int|
            0 <= i < ancestors(start).len() ==> !fs.files.contains(
                config_in(#[trigger] ancestors(start)[i]),
            ),
    ensures
        find_config(mode, fs) == Err::<Seq<char>, Failure>(Failure::ConfigNotFound(start)),
{
    lemma_search_finds_nearest(start, fs.files);
}

/// The directory from which the search for a launch in mode `mode` starts.
pub fn start_dir(mode: &InvocationType, fs: &Filesystem) -> (start: Result<String, LaunchError>)
    ensures
        match start {
            Ok(dir) => start_directory(mode@, fs@) == Ok::<Seq<char>, Failure>(dir@),
            Err(failure) => start_directory(mode@, fs@) == Err::<Seq<char>, Failure>(failure@),
        },
{
    match mode {
        InvocationType::File(name) => {
            let script = match fs.canonicalize(name.as_str()) {
                Some(script) => script,
                None => {
                    return Err(LaunchError::InputFileNotFound(name.clone()));
                },
            };
            if !fs.is_file(script.as_str()) {
                return Err(LaunchError::InputFileNotFound(name.clone()));
            }
            match parent_dir(script.as_str()) {
                Some(dir) => Ok(dir),
                None => Err(LaunchError::InputFileNotFound(name.clone())),
            }
        },
        _ => match &fs.cwd {
            Some(dir) => Ok(dir.clone()),
            None => Err(LaunchError::WorkingDirectoryUnknown),
        },
    }
}

/// The paths at which a configuration file is looked for when the search
/// starts at `start`, nearest first.
pub fn config_candidates(start: &str) -> (candidates: Vec<String>)
    ensures
        candidates.deep_view() == ancestors(start@).map_values(|dir: Seq<char>| config_in(dir)),
{
    let mut candidates: Vec<String> = Vec::new();
    let mut dir = start.to_owned();
    let ghost mut seen: Seq<Seq<char>> = Seq::empty();
    loop
        invariant
            ancestors(start@) == seen + ancestors(dir@),
            candidates.deep_view() == seen.map_values(|dir: Seq<char>| config_in(dir)),
        decreases dir@.len(),
    {
        let ghost before = candidates.deep_view();
        candidates.push(join_path(dir.as_str(), CONFIG_FILE));
        proof {
            lemma_parent_is_shorter(dir@);
            assert(candidates.deep_view() =~= before.push(config_in(dir@)));
            assert(seen.push(dir@).map_values(|dir: Seq<char>| config_in(dir)) =~= before.push(
                config_in(dir@),
            ));
        }
        match parent_dir(dir.as_str()) {
            Some(up) => {
                proof {
                    assert(seen + (seq![dir@] + ancestors(up@)) =~= seen.push(dir@) + ancestors(
                        up@,
                    ));
                    seen = seen.push(dir@);
                }
                dir = up;
            },
            None => {
                proof {
                    assert(seen + seq![dir@] =~= seen.push(dir@));
                }
                return candidates;
            },
        }
    }
}

/// The configuration file of the nearest of `path` and the directories
/// above it that has one.
pub fn find_toml_for_path(path: &str, fs: &Filesystem) -> (found: Option<String>)
    ensures
        match found {
            Some(file) => search(path@, fs@.files) == Some(file@),
            None => search(path@, fs@.files) is None,
        },
{
    let mut dir = path.to_owned();
    loop
        invariant
            search(path@, fs@.files) == search(dir@, fs@.files),
        decreases dir@.len(),
    {
        let candidate = join_path(dir.as_str(), CONFIG_FILE);
        if fs.is_file(candidate.as_str()) {
            return Some(candidate);
        }
        proof {
            lemma_parent_is_shorter(dir@);
        }
        match parent_dir(dir.as_str()) {
            Some(up) => {
                dir = up;
            },
            None => {
                return None;
            },
        }
    }
}

/// The configuration file for a launch in mode `mode`.
pub fn find_toml(mode: &InvocationType, fs: &Filesystem) -> (found: Result<String, LaunchError>)
    ensures
        match found {
            Ok(file) => find_config(mode@, fs@) == Ok::<Seq<char>, Failure>(file@),
            Err(failure) => find_config(mode@, fs@) == Err::<Seq<char>, Failure>(failure@),
        },
{
    let start = match start_dir(mode, fs) {
        Ok(start) => start,
        Err(failure) => {
            return Err(failure);
        },
    };
    match find_toml_for_path(start.as_str(), fs) {
        Some(file) => Ok(file),
        None => Err(LaunchError::ConfigNotFound(start)),
    }
}

} // verus!
