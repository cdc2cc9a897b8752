//! Sandboxes: one git worktree per session, on a branch of its own, with
//! its divergence from the main checkout.
use vstd::prelude::*;
use vstd::string::*;

verus! {

broadcast use vstd::string::group_string_axioms;

#[verifier::external_type_specification]
#[verifier::external_body]
pub struct ExRepository(git2::Repository);

#[verifier::external_type_specification]
#[verifier::external_body]
pub struct ExWorktree(git2::Worktree);

#[verifier::external_type_specification]
#[verifier::external_body]
pub struct ExGitError(git2::Error);

#[verifier::external_type_specification]
#[verifier::external_body]
pub struct ExOid(git2::Oid);

#[verifier::external_type_specification]
#[verifier::external_body]
pub struct ExCommit<'repo>(git2::Commit<'repo>);

#[verifier::external_type_specification]
#[verifier::external_body]
pub struct ExBranch<'repo>(git2::Branch<'repo>);

/// Failures of the sandbox operations.
#[derive(Debug, Clone, Copy, PartialEq, Eq)]
pub enum SandboxError {
    /// The path is not a readable git repository.
    RepoNotFound,
    /// Creating the branch, the directory or the worktree failed.
    WorktreeFailure,
    /// No worktree is registered under the given name.
    WorktreeNotFound,
}

/// What is known of one sandbox.
#[derive(Debug, Clone, PartialEq, Eq)]
pub struct WorktreeInfo {
    pub name: String,
    pub path: String,
    pub branch: String,
    pub ahead: usize,
    pub behind: usize,
    pub dirty: bool,
}

/// How many characters of a session id name its branch.
pub const BRANCH_PREFIX_LEN: usize = 8;

/// The first `BRANCH_PREFIX_LEN` characters of `id` (all of it when shorter).
pub open spec fn id_prefix(id: Seq<char>) -> Seq<char> {
    if id.len() < BRANCH_PREFIX_LEN { id } else { id.take(BRANCH_PREFIX_LEN as int) }
}

/// The branch of the sandbox for session `id`: `agent/<prefix of id>`.
pub open spec fn branch_name(id: Seq<char>) -> Seq<char> {
    seq!['a', 'g', 'e', 'n', 't', '/'] + id_prefix(id)
}

/// `b` appended to the path `a` as one more component.
pub open spec fn join_path(a: Seq<char>, b: Seq<char>) -> Seq<char> {
    if a.len() == 0 {
        b
    } else if a.last() == '/' {
        a + b
    } else {
        a + seq!['/'] + b
    }
}

/// The directory inside the repository's metadata that holds every sandbox.
pub open spec fn sandbox_root(repo: Seq<char>) -> Seq<char> {
    join_path(
        join_path(repo, seq!['.', 'g', 'i', 't']),
        seq!['w', 'o', 'r', 'k', 't', 'r', 'e', 'e', 's', '-', 'p', 'i'],
    )
}

/// The working copy of the sandbox for session `id`.
pub open spec fn sandbox_path(repo: Seq<char>, id: Seq<char>) -> Seq<char> {
    join_path(sandbox_root(repo), id)
}

/// Some status entry differs from "unmodified" (status bits all clear).
pub open spec fn any_changed(bits: Seq<u32>) -> bool {
    exists|i: int| 0 <= i < bits.len() && bits[i] != 0
}

/// The branch of the sandbox for session `session_id`.
pub fn agent_branch_name(session_id: &str) -> (r: String)
    ensures
        r@ == branch_name(session_id@),
{
    let n = session_id.unicode_len();
    let k: usize = if n < BRANCH_PREFIX_LEN { n } else { BRANCH_PREFIX_LEN };
    let prefix = session_id.substring_char(0, k);
    let mut r = String::from_str("agent/");
    proof {
        reveal_strlit("agent/");
    }
    r.append(prefix);
    assert(prefix@ =~= id_prefix(session_id@));
    assert(r@ =~= branch_name(session_id@));
    r
}

/// Appends `b` to the path `a` as one more component.
pub fn join(a: &str, b: &str) -> (r: String)
    ensures
        r@ == join_path(a@, b@),
{
    let n = a.unicode_len();
    if n == 0 {
        String::from_str(b)
    } else if a.get_char(n - 1) == '/' {
        let mut r = String::from_str(a);
        r.append(b);
        r
    } else {
        let mut r = String::from_str(a);
        r.append("/");
        proof {
            reveal_strlit("/");
        }
        r.append(b);
        assert(r@ =~= join_path(a@, b@));
        r
    }
}

/// The directory that holds every sandbox of the repository at `repo_path`.
pub fn sandbox_dir(repo_path: &str) -> (r: String)
    ensures
        r@ == sandbox_root(repo_path@),
{
    let git = join(repo_path, ".git");
    proof {
        reveal_strlit(".git");
        reveal_strlit("worktrees-pi");
    }
    let r = join(git.as_str(), "worktrees-pi");
    assert(".git"@ =~= seq!['.', 'g', 'i', 't']);
    assert("worktrees-pi"@ =~= seq!['w', 'o', 'r', 'k', 't', 'r', 'e', 'e', 's', '-', 'p', 'i']);
    r
}

/// The working copy of the sandbox for session `session_id`.
pub fn worktree_path(repo_path: &str, session_id: &str) -> (r: String)
    ensures
        r@ == sandbox_path(repo_path@, session_id@),
{
    let root = sandbox_dir(repo_path);
    join(root.as_str(), session_id)
}

/// Relies on `git2::Repository::open`: opens the repository at `path`.
#[verifier::external_body]
fn open_repo(path: &str) -> (r: Result<git2::Repository, git2::Error>) {
    git2::Repository::open(path)
}

/// Relies on `git2::Repository::refname_to_id`: the commit a reference
/// resolves to.
#[verifier::external_body]
fn resolve_ref(repo: &git2::Repository, name: &str) -> (r: Result<git2::Oid, git2::Error>) {
    repo.refname_to_id(name)
}

/// Relies on `git2::Repository::find_commit`: looks a commit up by id.
#[verifier::external_body]
fn find_commit<'a>(repo: &'a git2::Repository, id: git2::Oid) -> (r: Result<git2::Commit<'a>, git2::Error>) {
    repo.find_commit(id)
}

/// Relies on `git2::Repository::branch`, without forcing: fails where the
/// branch exists.
#[verifier::external_body]
fn create_branch<'a>(
    repo: &'a git2::Repository,
    name: &str,
    target: &git2::Commit<'_>,
) -> (r: Result<git2::Branch<'a>, git2::Error>) {
    repo.branch(name, target, false)
}

/// Relies on `git2::Repository::find_branch`: looks a local branch up by name.
#[verifier::external_body]
fn find_local_branch<'a>(repo: &'a git2::Repository, name: &str) -> (r: Result<git2::Branch<'a>, git2::Error>) {
    repo.find_branch(name, git2::BranchType::Local)
}

/// Relies on `git2::Repository::worktree`, with `WorktreeAddOptions::reference`
/// set to the branch: registers a worktree `name` at `path` checked out on it.
#[verifier::external_body]
fn add_worktree(
    repo: &git2::Repository,
    name: &str,
    path: &str,
    branch: &git2::Branch<'_>,
) -> (r: Result<git2::Worktree, git2::Error>) {
    let mut opts = git2::WorktreeAddOptions::new();
    opts.reference(Some(branch.get()));
    repo.worktree(name, std::path::Path::new(path), Some(&opts))
}

/// Relies on `git2::Repository::worktrees`: the names of the registered
/// worktrees, `None` for one that is not UTF-8.
#[verifier::external_body]
fn worktree_names(repo: &git2::Repository) -> (r: Result<Vec<Option<String>>, git2::Error>) {
    repo.worktrees().map(|a| a.iter().map(|n| n.map(|s| s.to_string())).collect())
}

/// Relies on `git2::Repository::find_worktree`: looks a worktree up by name.
#[verifier::external_body]
fn find_worktree(repo: &git2::Repository, name: &str) -> (r: Result<git2::Worktree, git2::Error>) {
    repo.find_worktree(name)
}

/// Relies on `git2::Repository::open_from_worktree`: opens the checkout of
/// `wt` as a repository of its own.
#[verifier::external_body]
fn open_worktree_repo(wt: &git2::Worktree) -> (r: Result<git2::Repository, git2::Error>) {
    git2::Repository::open_from_worktree(wt)
}

/// Relies on `git2::Worktree::path`: where the worktree is checked out.
#[verifier::external_body]
fn checkout_path(wt: &git2::Worktree) -> (r: String) {
    wt.path().to_string_lossy().to_string()
}

/// Relies on `git2::Repository::head` and `git2::Reference::shorthand`: the
/// short name of what HEAD points at, if HEAD and its name can be read.
#[verifier::external_body]
fn head_shorthand(repo: &git2::Repository) -> (r: Option<String>) {
    repo.head().ok().and_then(|h| h.shorthand().map(|s| s.to_string()))
}

/// Relies on `git2::Repository::graph_ahead_behind`: the commits unique to
/// `local` and to `upstream`.
#[verifier::external_body]
fn ahead_behind(
    repo: &git2::Repository,
    local: git2::Oid,
    upstream: git2::Oid,
) -> (r: Result<(usize, usize), git2::Error>) {
    repo.graph_ahead_behind(local, upstream)
}

/// Relies on `git2::Repository::statuses` with default options and
/// `git2::StatusEntry::status`: the status bits of each entry.
#[verifier::external_body]
fn status_bits(repo: &git2::Repository) -> (r: Result<Vec<u32>, git2::Error>) {
    repo.statuses(None).map(|s| s.iter().map(|e| e.status().bits()).collect())
}

/// Relies on `git2::Worktree::prune` with `WorktreePruneOptions::valid` and
/// `WorktreePruneOptions::working_tree` as given.
#[verifier::external_body]
fn prune_worktree(wt: &git2::Worktree, valid: bool, working_tree: bool) -> (r: Result<(), git2::Error>) {
    let mut opts = git2::WorktreePruneOptions::new();
    opts.valid(valid);
    opts.working_tree(working_tree);
    wt.prune(Some(&mut opts))
}

/// Relies on `git2::Branch::delete`: removes the branch.
#[verifier::external_body]
fn delete_branch(branch: &mut git2::Branch<'_>) -> (r: Result<(), git2::Error>) {
    branch.delete()
}

/// Whether a working copy with these status bits has uncommitted changes.
pub fn has_changes(bits: &Vec<u32>) -> (r: bool)
    ensures
        r == any_changed(bits@),
{
    let mut i: usize = 0;
    while i < bits.len()
        invariant
            i <= bits@.len(),
            forall|k: int| 0 <= k < i ==> bits@[k] == 0,
        decreases bits@.len() - i,
    {
        if bits[i] != 0 {
            return true;
        }
        i = i + 1;
    }
    false
}

/// What was read of one registered worktree: its name, its checkout path, the
/// short name of its HEAD, its divergence counts and its status bits, each of
/// the last three absent where it could not be read.
pub struct WorktreeRead {
    pub name: String,
    pub path: String,
    pub head: Option<String>,
    pub counts: Option<(usize, usize)>,
    pub status: Option<Vec<u32>>,
}

/// The fields of a `WorktreeInfo`.
pub struct WorktreeInfoView {
    pub name: Seq<char>,
    pub path: Seq<char>,
    pub branch: Seq<char>,
    pub ahead: usize,
    pub behind: usize,
    pub dirty: bool,
}

impl View for WorktreeInfo {
    type V = WorktreeInfoView;

    open spec fn view(&self) -> WorktreeInfoView {
        WorktreeInfoView {
            name: self.name@,
            path: self.path@,
            branch: self.branch@,
            ahead: self.ahead,
            behind: self.behind,
            dirty: self.dirty,
        }
    }
}

/// The report made of one read: a HEAD without a name is "detached", counts
/// that could not be read are zero, status that could not be read is clean.
pub open spec fn described(r: WorktreeRead) -> WorktreeInfoView {
    WorktreeInfoView {
        name: r.name@,
        path: r.path@,
        branch: match r.head {
            Some(h) => h@,
            None => "detached"@,
        },
        ahead: match r.counts {
            Some(c) => c.0,
            None => 0,
        },
        behind: match r.counts {
            Some(c) => c.1,
            None => 0,
        },
        dirty: match r.status {
            Some(b) => any_changed(b@),
            None => false,
        },
    }
}

/// The worktrees that could be read, in order; `None` marks one that was
/// skipped.
pub open spec fn kept(reads: Seq<Option<WorktreeRead>>) -> Seq<WorktreeRead>
    decreases reads.len(),
{
    if reads.len() == 0 {
        Seq::empty()
    } else {
        let rest = kept(reads.drop_last());
        match reads.last() {
            Some(r) => rest.push(r),
            None => rest,
        }
    }
}

/// The report for one worktree, from what was read of it.
pub fn describe_worktree(read: &WorktreeRead) -> (r: WorktreeInfo)
    ensures
        r@ == described(*read),
{
    let branch = match &read.head {
        Some(h) => h.clone(),
        None => String::from_str("detached"),
    };
    let (ahead, behind) = match read.counts {
        Some(c) => c,
        None => (0, 0),
    };
    let dirty = match &read.status {
        Some(b) => has_changes(b),
        None => false,
    };
    WorktreeInfo { name: read.name.clone(), path: read.path.clone(), branch, ahead, behind, dirty }
}

/// The listing made of what was read of each registered worktree: one entry
/// per worktree that could be read, in order, and none for a skipped one.
pub fn collect_worktrees(reads: &Vec<Option<WorktreeRead>>) -> (r: Vec<WorktreeInfo>)
    ensures
        r@.map_values(|w: WorktreeInfo| w@) == kept(reads@).map_values(|x: WorktreeRead| described(x)),
{
    let mut result: Vec<WorktreeInfo> = Vec::new();
    let mut i: usize = 0;
    while i < reads.len()
        invariant
            i <= reads@.len(),
            result@.map_values(|w: WorktreeInfo| w@) == kept(reads@.take(i as int)).map_values(
                |x: WorktreeRead| described(x),
            ),
        decreases reads@.len() - i,
    {
        let ghost before = result@;
        assert(reads@.take(i + 1).drop_last() =~= reads@.take(i as int));
        assert(reads@.take(i + 1).last() == reads@[i as int]);
        match &reads[i] {
            Some(read) => {
                let info = describe_worktree(read);
                result.push(info);
                assert(result@ == before.push(info));
                assert(reads@[i as int] == Some(*read));
                assert(kept(reads@.take(i + 1)) == kept(reads@.take(i as int)).push(*read));
                let ghost k = kept(reads@.take(i as int));
                assert(k.push(*read).map_values(|x: WorktreeRead| described(x)) =~= k.map_values(
                    |x: WorktreeRead| described(x),
                ).push(described(*read)));
                assert(result@.map_values(|w: WorktreeInfo| w@) =~= before.map_values(|w: WorktreeInfo| w@).push(
                    info@,
                ));
                assert(result@.map_values(|w: WorktreeInfo| w@) =~= kept(reads@.take(i + 1)).map_values(
                    |x: WorktreeRead| described(x),
                ));
            },
            None => {
                assert(kept(reads@.take(i + 1)) == kept(reads@.take(i as int)));
            },
        }
        i = i + 1;
    }
    assert(reads@.take(reads@.len() as int) =~= reads@);
    result
}

/// Commits of `wt_repo`'s HEAD not reachable from `main_repo`'s HEAD, and the
/// reverse; `None` where a HEAD or the graph cannot be read.
fn divergence(wt_repo: &git2::Repository, main_repo: &git2::Repository) -> (r: Option<(usize, usize)>) {
    let wt_head = match resolve_ref(wt_repo, "HEAD") {
        Ok(id) => id,
        Err(_) => return None,
    };
    let main_head = match resolve_ref(main_repo, "HEAD") {
        Ok(id) => id,
        Err(_) => return None,
    };
    match ahead_behind(wt_repo, wt_head, main_head) {
        Ok(c) => Some(c),
        Err(_) => None,
    }
}

/// Every sandbox registered in the repository at `repo_path`, with its branch,
/// divergence from the main HEAD and dirtiness. A worktree that cannot be
/// opened is left out: the entries are `collect_worktrees` of what was read.
pub fn list_worktrees(repo_path: &str) -> (r: Result<Vec<WorktreeInfo>, SandboxError>)
    ensures
        r is Err ==> r == Err::<Vec<WorktreeInfo>, SandboxError>(SandboxError::RepoNotFound),
{
    let repo = match open_repo(repo_path) {
        Ok(repo) => repo,
        Err(_) => return Err(SandboxError::RepoNotFound),
    };
    let names = match worktree_names(&repo) {
        Ok(names) => names,
        Err(_) => return Err(SandboxError::RepoNotFound),
    };
    let mut reads: Vec<Option<WorktreeRead>> = Vec::new();
    let mut i: usize = 0;
    while i < names.len()
        invariant
            i <= names@.len(),
        decreases names@.len() - i,
    {
        reads.push(read_worktree(&repo, &names[i]));
        i = i + 1;
    }
    Ok(collect_worktrees(&reads))
}

/// Reads the worktree `name` of `repo`; `None` where its name is not UTF-8,
/// it cannot be found, or its checkout cannot be opened.
fn read_worktree(repo: &git2::Repository, name: &Option<String>) -> (r: Option<WorktreeRead>)
    ensures
        r matches Some(read) ==> name matches Some(n) && read.name@ == n@,
{
    let name = match name {
        Some(n) => n,
        None => return None,
    };
    let wt = match find_worktree(repo, name.as_str()) {
        Ok(wt) => wt,
        Err(_) => return None,
    };
    let wt_repo = match open_worktree_repo(&wt) {
        Ok(r) => r,
        Err(_) => return None,
    };
    let status = match status_bits(&wt_repo) {
        Ok(b) => Some(b),
        Err(_) => None,
    };
    Some(WorktreeRead {
        name: name.clone(),
        path: checkout_path(&wt),
        head: head_shorthand(&wt_repo),
        counts: divergence(&wt_repo, repo),
        status,
    })
}

/// A sandbox half made: the repository is open and the branch exists. What
/// is left is to make `root` (the directory that holds the sandboxes) and to
/// register the worktree with `finish_worktree`.
pub struct SandboxPlan {
    pub repo: git2::Repository,
    pub name: String,
    pub branch: String,
    pub root: String,
    pub path: String,
}

impl SandboxPlan {
    pub open spec fn is_for(&self, repo_path: Seq<char>, session_id: Seq<char>) -> bool {
        &&& self.name@ == session_id
        &&& self.branch@ == branch_name(session_id)
        &&& self.root@ == sandbox_root(repo_path)
        &&& self.path@ == sandbox_path(repo_path, session_id)
    }
}

/// Opens the repository at `repo_path` and makes sure the branch of session
/// `session_id` exists, created at HEAD where it does not.
pub fn prepare_worktree(repo_path: &str, session_id: &str) -> (r: Result<SandboxPlan, SandboxError>)
    ensures
        match r {
            Ok(plan) => plan.is_for(repo_path@, session_id@),
            Err(e) => e == SandboxError::RepoNotFound || e == SandboxError::WorktreeFailure,
        },
{
    let repo = match open_repo(repo_path) {
        Ok(repo) => repo,
        Err(_) => return Err(SandboxError::RepoNotFound),
    };
    let branch = agent_branch_name(session_id);
    {
        let head = match resolve_ref(&repo, "HEAD") {
            Ok(id) => id,
            Err(_) => return Err(SandboxError::WorktreeFailure),
        };
        let commit = match find_commit(&repo, head) {
            Ok(c) => c,
            Err(_) => return Err(SandboxError::WorktreeFailure),
        };
        if create_branch(&repo, branch.as_str(), &commit).is_err() {
            if find_local_branch(&repo, branch.as_str()).is_err() {
                return Err(SandboxError::WorktreeFailure);
            }
        }
    }
    let root = sandbox_dir(repo_path);
    let path = join(root.as_str(), session_id);
    Ok(SandboxPlan { repo, name: String::from_str(session_id), branch, root, path })
}

/// Registers the worktree of a prepared sandbox, checked out on its branch.
/// A fresh sandbox is at its branch point: nothing ahead, behind or changed.
pub fn finish_worktree(plan: SandboxPlan) -> (r: Result<WorktreeInfo, SandboxError>)
    ensures
        match r {
            Ok(info) => info.name@ == plan.name@ && info.path@ == plan.path@ && info.branch@ == plan.branch@
                && info.ahead == 0 && info.behind == 0 && !info.dirty,
            Err(e) => e == SandboxError::WorktreeFailure,
        },
{
    let SandboxPlan { repo, name, branch, root: _, path } = plan;
    {
        let b = match find_local_branch(&repo, branch.as_str()) {
            Ok(b) => b,
            Err(_) => return Err(SandboxError::WorktreeFailure),
        };
        if add_worktree(&repo, name.as_str(), path.as_str(), &b).is_err() {
            return Err(SandboxError::WorktreeFailure);
        }
    }
    Ok(WorktreeInfo { name, path, branch, ahead: 0, behind: 0, dirty: false })
}

/// Removes the sandbox `name` of the repository at `repo_path`: its worktree
/// registration and working copy, then (at best effort) its branch.
pub fn remove_worktree(repo_path: &str, name: &str) -> (r: Result<(), SandboxError>)
    ensures
        r is Err ==> r == Err::<(), SandboxError>(SandboxError::RepoNotFound)
            || r == Err::<(), SandboxError>(SandboxError::WorktreeNotFound)
            || r == Err::<(), SandboxError>(SandboxError::WorktreeFailure),
{
    let repo = match open_repo(repo_path) {
        Ok(repo) => repo,
        Err(_) => return Err(SandboxError::RepoNotFound),
    };
    let wt = match find_worktree(&repo, name) {
        Ok(wt) => wt,
        Err(_) => return Err(SandboxError::WorktreeNotFound),
    };
    if prune_worktree(&wt, true, true).is_err() {
        return Err(SandboxError::WorktreeFailure);
    }
    let branch = agent_branch_name(name);
    if let Ok(mut b) = find_local_branch(&repo, branch.as_str()) {
        let _ = delete_branch(&mut b);
    }
    Ok(())
}

} // verus!
