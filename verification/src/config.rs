//! Per-repository configuration (`.wt.toml` at the repository root): its
//! shape, its validation, and the worktree paths derived from it.

use vstd::prelude::*;

use crate::error::{ErrorView, WtError};
use crate::order::{lemma_name_order_total, name_order, sort_names};
use vstd::relations::sorted_by;
use crate::paths::{is_absolute, join, join_path, resolve_path};
use crate::process::{views, Captured};
use crate::text::{owned, push_char, push_str, to_chars, trim, trim_str};

verus! {

/// The name of the configuration file at the repository root.
pub const CONFIG_FILENAME: &'static str = ".wt.toml";

/// The configuration of `wt` for one repository.
#[derive(Debug, Clone)]
pub struct Config {
    pub worktrees_dir: String,
    pub default_branch: String,
    pub steps: Vec<Step>,
}

/// A step run after a worktree is created.
#[derive(Debug, Clone)]
pub enum Step {
    Copy(CopyStep),
    Command(CommandStep),
    Script(ScriptStep),
}

/// Copy files or directories from the main checkout into the worktree.
#[derive(Debug, Clone)]
pub struct CopyStep {
    pub paths: Vec<String>,
}

/// Run a shell command in the worktree.
#[derive(Debug, Clone)]
pub struct CommandStep {
    pub run: String,
}

/// Run a bash script in the worktree.
#[derive(Debug, Clone)]
pub struct ScriptStep {
    pub path: String,
    pub optional: bool,
}

/// Loaded configuration plus the absolute paths to the repo root and the
/// resolved worktrees directory (relative paths in config are resolved
/// against `repo_root`).
#[derive(Debug, Clone)]
pub struct LoadedConfig {
    pub config: Config,
    pub repo_root: String,
    pub worktrees_dir: String,
}

/// What reading `.wt.toml` found.
#[derive(Debug)]
pub enum ConfigSource {
    /// There is no such file.
    Missing,
    /// The file could not be read; the text of the error.
    Unreadable(String),
    /// The file is not a valid configuration; the text of the parse error.
    Malformed(String),
    /// The file, parsed.
    Parsed(Config),
}

/// The path of the configuration file of a repository.
pub open spec fn config_path(repo_root: Seq<char>) -> Seq<char> {
    join(repo_root, CONFIG_FILENAME@)
}

/// The error reported when `default_branch` is blank.
pub open spec fn blank_default_branch(path: Seq<char>) -> Seq<char> {
    path + ": `default_branch` must be a non-empty branch name"@
}

/// The error reported when `worktrees_dir` is blank.
pub open spec fn blank_worktrees_dir(path: Seq<char>) -> Seq<char> {
    path + ": `worktrees_dir` must be a non-empty path (relative to repo root)"@
}

/// The error reported when there is no configuration file.
pub open spec fn missing_config(repo_root: Seq<char>) -> Seq<char> {
    "no "@ + CONFIG_FILENAME@ + " found at repo root ("@ + repo_root
        + "). create one to configure wt for this repo."@
}

/// A directory entry of the worktrees directory: its name when that is
/// valid UTF-8, and whether it is a directory.
#[derive(Debug)]
pub struct DirEntryInfo {
    pub name: Option<String>,
    pub is_dir: bool,
}

/// What reading the worktrees directory found.
#[derive(Debug)]
pub enum DirListing {
    /// The directory does not exist.
    Missing,
    /// The directory could not be opened; the text of the error.
    Unreadable(String),
    /// An entry could not be read; the text of the error.
    EntryFailed(String),
    /// The entries, in the order the directory gave them.
    Entries(Vec<DirEntryInfo>),
}

/// The names of the entries that are directories with UTF-8 names, in the
/// order given.
pub open spec fn listed_names(es: Seq<DirEntryInfo>) -> Seq<Seq<char>>
    decreases es.len(),
{
    if es.len() == 0 {
        Seq::empty()
    } else {
        let rest = listed_names(es.drop_last());
        let e = es.last();
        if e.is_dir && e.name is Some {
            rest.push(e.name->0@)
        } else {
            rest
        }
    }
}

/// The directory name of a branch: every `/` becomes `-`.
pub open spec fn dir_name_of(branch: Seq<char>) -> Seq<char> {
    branch.map_values(|c: char|
        if c == '/' {
            '-'
        } else {
            c
        })
}

/// A directory name is as long as its branch, holds no `/`, and differs
/// from the branch only where the branch had a `/`.
pub proof fn lemma_dir_name_of_shape(branch: Seq<char>)
    ensures
        dir_name_of(branch).len() == branch.len(),
        forall|i: int| 0 <= i < branch.len() ==> #[trigger] dir_name_of(branch)[i] != '/',
        forall|i: int|
            0 <= i < branch.len() && branch[i] != '/' ==> #[trigger] dir_name_of(branch)[i]
                == branch[i],
{
}

/// Converting a directory name once more changes nothing.
pub proof fn lemma_dir_name_of_idempotent(branch: Seq<char>)
    ensures
        dir_name_of(dir_name_of(branch)) == dir_name_of(branch),
{
    assert(dir_name_of(dir_name_of(branch)) =~= dir_name_of(branch));
}

/// A branch without `/` is its own directory name, so its worktree lies at
/// the path named after it.
pub proof fn lemma_plain_branch_dir_name(worktrees_dir: Seq<char>, branch: Seq<char>)
    requires
        forall|i: int| 0 <= i < branch.len() ==> branch[i] != '/',
    ensures
        dir_name_of(branch) == branch,
        join(worktrees_dir, dir_name_of(branch)) == join(worktrees_dir, branch),
{
    assert(dir_name_of(branch) =~= branch);
}

/// The worktree names come out sorted, and they are the names of the
/// listed directories, each as often as it was listed.
pub proof fn lemma_worktree_names_sorted(es: Seq<DirEntryInfo>)
    ensures
        sorted_by(listed_names(es).sort_by(name_order()), name_order()),
        listed_names(es).sort_by(name_order()).to_multiset() == listed_names(es).to_multiset(),
{
    lemma_name_order_total();
    listed_names(es).lemma_sort_by_ensures(name_order());
}

/// How the configuration of the repository at `repo_root` loads from what
/// reading its `.wt.toml` found: an error when the file is missing,
/// unreadable, malformed, or has a blank `default_branch` or
/// `worktrees_dir`; otherwise the configuration with `worktrees_dir`
/// resolved against the root.
pub open spec fn loads_as(repo_root: Seq<char>, source: ConfigSource, r: Result<LoadedConfig, WtError>) -> bool {
    let path = config_path(repo_root);
    match source {
        ConfigSource::Missing => r is Err && r->Err_0@ == (ErrorView::Message {
            text: missing_config(repo_root),
        }),
        ConfigSource::Unreadable(e) => r is Err && r->Err_0@ == (ErrorView::Context {
            context: "reading "@ + path,
            source: Box::new(ErrorView::Message { text: e@ }),
        }),
        ConfigSource::Malformed(e) => r is Err && r->Err_0@ == (ErrorView::Context {
            context: "parsing "@ + path,
            source: Box::new(ErrorView::Message { text: e@ }),
        }),
        ConfigSource::Parsed(c) => if trim(c.default_branch@).len() == 0 {
            r is Err && r->Err_0@ == (ErrorView::Message { text: blank_default_branch(path) })
        } else if trim(c.worktrees_dir@).len() == 0 {
            r is Err && r->Err_0@ == (ErrorView::Message { text: blank_worktrees_dir(path) })
        } else {
            r is Ok && r->Ok_0.config == c && r->Ok_0.repo_root@ == repo_root
                && r->Ok_0.worktrees_dir@ == (if is_absolute(c.worktrees_dir@) {
                c.worktrees_dir@
            } else {
                join(repo_root, c.worktrees_dir@)
            })
        },
    }
}

/// The configuration loads exactly when the file was found, read and
/// parsed, and names a non-blank default branch and worktrees directory;
/// then it is that configuration, at that root, with a relative worktrees
/// directory taken under the root and an absolute one kept as it is.
pub proof fn lemma_loads_when_valid(repo_root: Seq<char>, source: ConfigSource, r: Result<LoadedConfig, WtError>)
    requires
        loads_as(repo_root, source, r),
    ensures
        r is Ok <==> (source matches ConfigSource::Parsed(c) && trim(c.default_branch@).len() > 0
            && trim(c.worktrees_dir@).len() > 0),
        r matches Ok(l) ==> (source matches ConfigSource::Parsed(c) && l.config == c
            && l.repo_root@ == repo_root && (c.worktrees_dir@.len() > 0 && c.worktrees_dir@[0]
            == '/' ==> l.worktrees_dir@ == c.worktrees_dir@) && (!(c.worktrees_dir@.len() > 0
            && c.worktrees_dir@[0] == '/') && repo_root.len() > 0 && repo_root.last() != '/'
            ==> l.worktrees_dir@ == repo_root + seq!['/'] + c.worktrees_dir@)),
{
}

impl LoadedConfig {
    /// The configuration of the repository at `repo_root`, from what reading
    /// its `.wt.toml` found (see `loads_as`).
    pub fn load_from_repo_root(repo_root: String, source: ConfigSource) -> (r: Result<
        LoadedConfig,
        WtError,
    >)
        ensures
            loads_as(repo_root@, source, r),
    {
        let path = join_path(repo_root.as_str(), CONFIG_FILENAME);
        match source {
            ConfigSource::Missing => {
                let mut text = owned("no ");
                push_str(&mut text, CONFIG_FILENAME);
                push_str(&mut text, " found at repo root (");
                push_str(&mut text, repo_root.as_str());
                push_str(&mut text, "). create one to configure wt for this repo.");
                Err(WtError::Message { text })
            },
            ConfigSource::Unreadable(e) => {
                let mut context = owned("reading ");
                push_str(&mut context, path.as_str());
                Err(WtError::with_context(context, WtError::message_error(e)))
            },
            ConfigSource::Malformed(e) => {
                let mut context = owned("parsing ");
                push_str(&mut context, path.as_str());
                Err(WtError::with_context(context, WtError::message_error(e)))
            },
            ConfigSource::Parsed(config) => {
                let db = trim_str(config.default_branch.as_str());
                if to_chars(db.as_str()).len() == 0 {
                    let mut text = path;
                    push_str(&mut text, ": `default_branch` must be a non-empty branch name");
                    return Err(WtError::Message { text });
                }
                let wd = trim_str(config.worktrees_dir.as_str());
                if to_chars(wd.as_str()).len() == 0 {
                    let mut text = path;
                    push_str(
                        &mut text,
                        ": `worktrees_dir` must be a non-empty path (relative to repo root)",
                    );
                    return Err(WtError::Message { text });
                }
                let worktrees_dir = resolve_path(repo_root.as_str(), config.worktrees_dir.as_str());
                Ok(LoadedConfig { config, repo_root, worktrees_dir })
            },
        }
    }

    /// The configuration of the repository that `git rev-parse
    /// --show-toplevel` (run as `toplevel`) names, from what reading its
    /// `.wt.toml` found: the error of `repo_root` when git fails, otherwise
    /// `load_from_repo_root`.
    pub fn load(toplevel: &Captured, source: ConfigSource) -> (r: Result<LoadedConfig, WtError>)
        ensures
            match crate::repo::repo_root_result(*toplevel) {
                Err(e) => r is Err && r->Err_0@ == e,
                Ok(root) => loads_as(root, source, r),
            },
    {
        match crate::repo::repo_root(toplevel) {
            Err(e) => Err(e),
            Ok(root) => LoadedConfig::load_from_repo_root(root, source),
        }
    }

    /// Converts a branch name to a worktree directory name (slashes become
    /// hyphens).
    pub fn branch_to_dir_name(branch: &str) -> (r: String)
        ensures
            r@ == dir_name_of(branch@),
    {
        let v = to_chars(branch);
        let mut r = String::new();
        let mut i: usize = 0;
        while i < v.len()
            invariant
                i <= v@.len(),
                v@ == branch@,
                r@ == dir_name_of(v@.take(i as int)),
            decreases v@.len() - i,
        {
            let c = v[i];
            push_char(
                &mut r,
                if c == '/' {
                    '-'
                } else {
                    c
                },
            );
            assert(dir_name_of(v@.take(i + 1)) == dir_name_of(v@.take(i as int)).push(
                if c == '/' {
                    '-'
                } else {
                    c
                },
            ));
            i = i + 1;
        }
        assert(v@.take(v@.len() as int) == v@);
        r
    }

    /// Absolute path to the worktree dir for the given branch.
    pub fn worktree_path_for_branch(&self, branch: &str) -> (r: String)
        ensures
            r@ == join(self.worktrees_dir@, dir_name_of(branch@)),
    {
        let name = LoadedConfig::branch_to_dir_name(branch);
        join_path(self.worktrees_dir.as_str(), name.as_str())
    }

    /// Absolute path to the worktree dir for the given on-disk name.
    pub fn worktree_path_for_name(&self, name: &str) -> (r: String)
        ensures
            r@ == join(self.worktrees_dir@, name@),
    {
        join_path(self.worktrees_dir.as_str(), name)
    }

    /// The names of the subdirectories of `worktrees_dir`, sorted in
    /// `String`'s order, from what reading the directory found. A missing
    /// directory has none.
    pub fn list_worktree_names(&self, listing: DirListing) -> (r: Result<Vec<String>, WtError>)
        ensures
            match listing {
                DirListing::Missing => r is Ok && r->Ok_0@.len() == 0,
                DirListing::Unreadable(e) => r is Err && r->Err_0@ == (ErrorView::Context {
                    context: "reading worktrees dir "@ + self.worktrees_dir@,
                    source: Box::new(ErrorView::Message { text: e@ }),
                }),
                DirListing::EntryFailed(e) => r is Err && r->Err_0@ == (ErrorView::Message {
                    text: e@,
                }),
                DirListing::Entries(es) => r is Ok && views(r->Ok_0@) == listed_names(es@).sort_by(
                    name_order(),
                ),
            },
    {
        match listing {
            DirListing::Missing => {
                let v: Vec<String> = Vec::new();
                assert(v@.len() == 0);
                Ok(v)
            },
            DirListing::Unreadable(e) => {
                let mut context = owned("reading worktrees dir ");
                push_str(&mut context, self.worktrees_dir.as_str());
                Err(WtError::with_context(context, WtError::message_error(e)))
            },
            DirListing::EntryFailed(e) => Err(WtError::Message { text: e }),
            DirListing::Entries(es) => {
                let mut names: Vec<String> = Vec::new();
                let mut i: usize = 0;
                while i < es.len()
                    invariant
                        i <= es@.len(),
                        views(names@) == listed_names(es@.take(i as int)),
                    decreases es@.len() - i,
                {
                    let e = &es[i];
                    assert(es@.take(i + 1).drop_last() == es@.take(i as int));
                    if e.is_dir {
                        match &e.name {
                            Some(n) => {
                                names.push(owned(n.as_str()));
                            },
                            None => {},
                        }
                    }
                    i = i + 1;
                }
                assert(es@.take(es@.len() as int) == es@);
                Ok(sort_names(names))
            },
        }
    }
}

} // verus!
