//! Finds the repository that encloses a directory and tells its kind.
//!
//! A directory is marked by a `.jj` directory, by a `.git` entry, or by both.
//! The search starts at a directory and walks up through its ancestors; the
//! nearest marked one is the repository root. Looking at the disk is kept apart
//! from deciding: [`locate`] decides over what was seen, for every possible
//! observation, and [`detect`] does the looking.

use std::path::Path;
use std::path::PathBuf;
use vstd::prelude::*;

verus! {

/// `std::path::Path`, carried through as it is: nothing is known of what a
/// path holds.
#[verifier::external_type_specification]
#[verifier::external_body]
pub struct ExPath(Path);

/// `std::path::PathBuf`, carried through as it is.
#[verifier::external_type_specification]
#[verifier::external_body]
pub struct ExPathBuf(PathBuf);

/// Kind of repository that a directory belongs to.
#[derive(Debug, Clone, Copy, PartialEq, Eq, Structural)]
#[non_exhaustive]
pub enum RepoType {
    /// Only `.jj` is present.
    Jj,
    /// Both `.jj` and `.git` are present.
    JjColocated,
    /// Only `.git` is present.
    Git,
    /// Neither is present: not in any repository.
    NoRepo,
}

/// Outcome of a search.
#[derive(Debug)]
pub struct DetectResult {
    /// Kind of the repository found; `NoRepo` where none was found.
    pub repo_type: RepoType,
    /// Its root: the nearest marked directory. `None` exactly where the kind
    /// is `NoRepo`.
    pub repo_root: Option<PathBuf>,
}

impl DetectResult {
    /// Whether a repository of any kind was found.
    pub fn is_repo(&self) -> (inside: bool)
        ensures
            inside == (self.repo_type != RepoType::NoRepo),
    {
        self.repo_type != RepoType::NoRepo
    }
}

/// Name of the directory that marks a change-oriented repository.
pub const JJ_MARKER: &'static str = ".jj";

/// Name of the entry that marks a branch-oriented repository.
pub const GIT_MARKER: &'static str = ".git";

/// What one directory shows of the two markers.
#[derive(Debug, Clone, Copy, PartialEq, Eq, Structural)]
pub struct Markers {
    /// `.jj` is there and is a directory.
    pub has_jj: bool,
    /// `.git` is there, as a directory or as a file (a linked working tree).
    pub has_git: bool,
}

impl Markers {
    /// At least one marker is present.
    pub open spec fn marked(self) -> bool {
        self.has_jj || self.has_git
    }

    /// The kind that these markers stand for.
    pub open spec fn kind(self) -> RepoType {
        if self.has_jj && self.has_git {
            RepoType::JjColocated
        } else if self.has_jj {
            RepoType::Jj
        } else if self.has_git {
            RepoType::Git
        } else {
            RepoType::NoRepo
        }
    }

    /// Classifies one directory by the markers found in it.
    pub fn classify(&self) -> (kind: RepoType)
        ensures
            kind == self.kind(),
            kind != RepoType::NoRepo <==> self.marked(),
    {
        match (self.has_jj, self.has_git) {
            (true, true) => RepoType::JjColocated,
            (true, false) => RepoType::Jj,
            (false, true) => RepoType::Git,
            (false, false) => RepoType::NoRepo,
        }
    }
}

/// A directory that a walk has looked at, with what it showed.
#[derive(Debug)]
pub struct Observed {
    /// The directory.
    pub dir: PathBuf,
    /// What it showed.
    pub markers: Markers,
}

/// The markers of the directories that a walk has looked at, in its order.
pub open spec fn markers_of(observed: Seq<Observed>) -> Seq<Markers> {
    observed.map_values(|seen: Observed| seen.markers)
}

/// Position of the first marked directory at or after `from`, if there is one.
pub open spec fn first_marked_from(seen: Seq<Markers>, from: int) -> Option<int>
    decreases seen.len() - from,
{
    if from < 0 || from >= seen.len() {
        None
    } else if seen[from].marked() {
        Some(from)
    } else {
        first_marked_from(seen, from + 1)
    }
}

/// The repository that a walk finds. `seen[0]` is what the starting directory
/// showed, `seen[1]` its parent, and so on upwards. The result is the position
/// of the nearest marked directory with its kind, or `None` where no directory
/// is marked.
pub open spec fn located(seen: Seq<Markers>) -> Option<(int, RepoType)> {
    match first_marked_from(seen, 0) {
        Some(depth) => Some((depth, seen[depth].kind())),
        None => None,
    }
}

/// What `first_marked_from` finds is marked, and nothing between `from` and it
/// is; where it finds nothing, nothing from `from` on is marked.
pub proof fn lemma_first_marked_from(seen: Seq<Markers>, from: int)
    requires
        0 <= from <= seen.len(),
    ensures
        match first_marked_from(seen, from) {
            Some(depth) => {
                &&& from <= depth < seen.len()
                &&& seen[depth].marked()
                &&& forall|j: int| from <= j < depth ==> !(#[trigger] seen[j]).marked()
            },
            None => forall|j: int| from <= j < seen.len() ==> !(#[trigger] seen[j]).marked(),
        },
    decreases seen.len() - from,
{
    if from < seen.len() && !seen[from].marked() {
        lemma_first_marked_from(seen, from + 1);
    }
}

/// The root is the nearest marked directory: the directory found is marked,
/// its kind is that of its own markers, and no directory below it is marked.
/// Nothing is found exactly when no directory is marked.
pub proof fn lemma_located_is_nearest(seen: Seq<Markers>)
    ensures
        match located(seen) {
            Some((depth, kind)) => {
                &&& 0 <= depth < seen.len()
                &&& seen[depth].marked()
                &&& kind == seen[depth].kind()
                &&& kind != RepoType::NoRepo
                &&& forall|j: int| 0 <= j < depth ==> !(#[trigger] seen[j]).marked()
            },
            None => forall|j: int| 0 <= j < seen.len() ==> !(#[trigger] seen[j]).marked(),
        },
{
    lemma_first_marked_from(seen, 0);
}

/// A marked directory with no marked directory below it is the one found.
pub proof fn lemma_nearest_is_located(seen: Seq<Markers>, depth: int)
    requires
        0 <= depth < seen.len(),
        seen[depth].marked(),
        forall|j: int| 0 <= j < depth ==> !(#[trigger] seen[j]).marked(),
    ensures
        located(seen) == Some((depth, seen[depth].kind())),
{
    lemma_first_marked_from(seen, 0);
}

/// Where no directory on the way up shows a marker, no repository is found.
pub proof fn lemma_no_markers_no_repo(seen: Seq<Markers>)
    requires
        forall|j: int| 0 <= j < seen.len() ==> !(#[trigger] seen[j]).marked(),
    ensures
        located(seen) is None,
{
    lemma_first_marked_from(seen, 0);
}

/// Where the nearest marked directory shows both markers, the repository is
/// colocated, never plain `Jj` or plain `Git`.
pub proof fn lemma_both_markers_colocated(seen: Seq<Markers>, depth: int)
    requires
        0 <= depth < seen.len(),
        seen[depth].has_jj && seen[depth].has_git,
        forall|j: int| 0 <= j < depth ==> !(#[trigger] seen[j]).marked(),
    ensures
        located(seen) == Some((depth, RepoType::JjColocated)),
{
    lemma_nearest_is_located(seen, depth);
}

/// The search depends on what the directories show and on nothing else: two
/// walks that see the same markers find the same repository.
pub proof fn lemma_same_markers_same_repo(first: Seq<Markers>, second: Seq<Markers>)
    requires
        first.len() == second.len(),
        forall|j: int| 0 <= j < first.len() ==> first[j] == second[j],
    ensures
        located(first) == located(second),
{
    assert(first =~= second);
}

/// Decides over what a walk has seen, nearest directory first: the repository
/// is the first marked directory, of the kind that its markers stand for.
pub fn locate(observed: Vec<Observed>) -> (found: DetectResult)
    ensures
        match located(markers_of(observed@)) {
            Some((depth, kind)) => {
                &&& found.repo_type == kind
                &&& found.repo_root == Some(observed@[depth].dir)
            },
            None => found.repo_type == RepoType::NoRepo && found.repo_root is None,
        },
        found.repo_type == RepoType::NoRepo <==> found.repo_root is None,
{
    let ghost seen = markers_of(observed@);
    let mut left = observed;
    let mut depth: usize = 0;
    while depth < left.len()
        invariant
            depth <= left.len(),
            left@ == observed@,
            seen == markers_of(observed@),
            first_marked_from(seen, 0) == first_marked_from(seen, depth as int),
        decreases left.len() - depth,
    {
        let repo_type = left[depth].markers.classify();
        if repo_type != RepoType::NoRepo {
            let nearest = left.swap_remove(depth);
            return DetectResult { repo_type, repo_root: Some(nearest.dir) };
        }
        depth += 1;
    }
    DetectResult { repo_type: RepoType::NoRepo, repo_root: None }
}

/// What `Path::ancestors` yields for a path: the path itself, then its parent,
/// then the parent of that, up to the last path that has none.
pub uninterp spec fn ancestors_of(start: &Path) -> Seq<PathBuf>;

/// What `Path::join` makes of a directory and the name of an entry in it.
pub uninterp spec fn joined_path(dir: PathBuf, name: Seq<char>) -> PathBuf;

/// `Path::ancestors`, each item copied into a `PathBuf`: the path itself first,
/// then what `Path::parent` gives, again and again. At least one item comes
/// out. The items depend on the path alone and go by the name `ancestors_of`.
#[verifier::external_body]
fn ancestor_dirs(start: &Path) -> (dirs: Vec<PathBuf>)
    ensures
        dirs@ == ancestors_of(start),
        dirs@.len() >= 1,
{
    start.ancestors().map(|dir| dir.to_path_buf()).collect()
}

/// `Path::join`: `dir` extended by `name`. The result depends on the two
/// alone and goes by the name `joined_path`.
#[verifier::external_body]
fn entry_path(dir: &PathBuf, name: &str) -> (path: PathBuf)
    ensures
        path == joined_path(*dir, name@),
{
    dir.join(name)
}

/// `Path::is_dir`: asks the file system, so nothing is promised of the answer.
#[verifier::external_body]
fn path_is_dir(path: &PathBuf) -> bool {
    path.is_dir()
}

/// `Path::exists`: asks the file system, so nothing is promised of the answer.
#[verifier::external_body]
fn path_exists(path: &PathBuf) -> bool {
    path.exists()
}

/// `std::path::absolute`: the path made absolute, a relative one against the
/// current directory of the process, without a look at the file system. `None`
/// where that fails, as it does for an empty path. Nothing is promised of the
/// result: it depends on where the process runs.
#[verifier::external_body]
fn absolute_path(path: &Path) -> Option<PathBuf> {
    std::path::absolute(path).ok()
}

/// `PathBuf::as_path`: the same path, borrowed.
pub assume_specification[ PathBuf::as_path ](buf: &PathBuf) -> (path: &Path)
;

/// The two entries that are asked for in `dir`: first the one that marks a
/// change-oriented repository, then the one that marks a branch-oriented one.
fn marker_paths(dir: &PathBuf) -> (paths: (PathBuf, PathBuf))
    ensures
        paths.0 == joined_path(*dir, JJ_MARKER@),
        paths.1 == joined_path(*dir, GIT_MARKER@),
{
    (entry_path(dir, JJ_MARKER), entry_path(dir, GIT_MARKER))
}

/// Looks at one directory: whether `.jj` in it is a directory, and whether
/// `.git` in it exists. Both answers come from the file system, so either may
/// be true or false; [`Markers::classify`] says what each pair stands for.
fn probe(dir: &PathBuf) -> Markers {
    let (jj_path, git_path) = marker_paths(dir);
    let has_jj = path_is_dir(&jj_path);
    let has_git = path_exists(&git_path);
    Markers { has_jj, has_git }
}

/// `observed` is a walk over `dirs`: it holds the first of them, in their
/// order and each once, with what each showed. None but the last is marked,
/// and where the last is not marked either, every directory was looked at.
/// Where there is a directory at all, the first is looked at.
pub open spec fn is_walk(observed: Seq<Observed>, dirs: Seq<PathBuf>) -> bool {
    &&& observed.len() <= dirs.len()
    &&& dirs.len() > 0 ==> observed.len() > 0
    &&& forall|j: int| 0 <= j < observed.len() ==> (#[trigger] observed[j]).dir == dirs[j]
    &&& forall|j: int| 0 <= j < observed.len() - 1 ==> !(#[trigger] observed[j]).markers.marked()
    &&& observed.len() == dirs.len() || observed.last().markers.marked()
}

/// Looks at the directories in turn and stops behind the first one that is
/// marked.
fn look_at(dirs: Vec<PathBuf>) -> (observed: Vec<Observed>)
    ensures
        is_walk(observed@, dirs@),
{
    let mut observed: Vec<Observed> = Vec::new();
    for dir in it: dirs
        invariant
            it.seq() == dirs@,
            observed@.len() == it.index(),
            forall|j: int| 0 <= j < observed@.len() ==> (#[trigger] observed@[j]).dir == dirs@[j],
            forall|j: int| 0 <= j < observed@.len() ==> !(#[trigger] observed@[j]).markers.marked(),
    {
        let markers = probe(&dir);
        observed.push(Observed { dir, markers });
        if markers.has_jj || markers.has_git {
            return observed;
        }
    }
    observed
}

/// Looks at `start` and then at its ancestors in turn, and stops behind the
/// first directory that is marked: no directory above it is looked at, and
/// none that is not `start` or above it. The starting directory is always
/// looked at.
fn walk(start: &Path) -> (observed: Vec<Observed>)
    ensures
        is_walk(observed@, ancestors_of(start)),
        observed@.len() >= 1,
{
    look_at(ancestor_dirs(start))
}

/// Walks up from `from`, taken as it is written, to the nearest marked
/// directory. The directories looked at are `from` and its ancestors, each
/// once and in that order, up to the first marked one. What they show is for
/// the disk to say; the rest is fixed: the result is what [`locate`] returns
/// for that walk, and a root is one of the ancestors.
#[must_use]
pub fn detect_from(from: &Path) -> (found: DetectResult)
    ensures
        found.repo_type == RepoType::NoRepo <==> found.repo_root is None,
        found.repo_root matches Some(root) ==> exists|j: int|
            0 <= j < ancestors_of(from).len() && #[trigger] ancestors_of(from)[j] == root,
        exists|observed: Vec<Observed>|
            is_walk(observed@, ancestors_of(from)) && observed@.len() >= 1 && call_ensures(
                locate,
                (observed,),
                found,
            ),
{
    let observed = walk(from);
    proof {
        lemma_located_is_nearest(markers_of(observed@));
    }
    locate(observed)
}

/// Walks up from `start` to the nearest marked directory. A relative `start`
/// is made absolute first, against the current directory of the process, so
/// that the walk goes on to the root of the file system; where that cannot be
/// done, `start` is taken as it is written. The result is what
/// [`detect_from`] returns for the path that the walk starts from.
#[must_use]
pub fn detect(start: &Path) -> (found: DetectResult)
    ensures
        found.repo_type == RepoType::NoRepo <==> found.repo_root is None,
        exists|from: &Path| call_ensures(detect_from, (from,), found),
{
    match absolute_path(start) {
        Some(absolute) => detect_from(absolute.as_path()),
        None => detect_from(start),
    }
}

/// Whether `start` lies in a repository of any kind: whether the kind that
/// [`detect`] finds for it is another than `NoRepo`.
#[must_use]
pub fn in_repo(start: &Path) -> (inside: bool)
    ensures
        exists|found: DetectResult|
            call_ensures(detect, (start,), found) && inside == (found.repo_type
                != RepoType::NoRepo),
{
    detect(start).is_repo()
}

} // verus!
