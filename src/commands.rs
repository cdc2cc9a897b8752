//! The arguments of the command entry points, and the defaults they apply.
use vstd::prelude::*;
use vstd::string::*;
use crate::sandbox::SandboxError;

verus! {

broadcast use vstd::string::group_string_axioms;

/// Terminal width when a spawn request names none.
pub const DEFAULT_COLS: u16 = 220;

/// Terminal height when a spawn request names none.
pub const DEFAULT_ROWS: u16 = 50;

/// A request to spawn a session.
#[derive(Debug, Clone)]
pub struct SpawnArgs {
    pub agent_id: String,
    pub cmd: Vec<String>,
    pub cwd: Option<String>,
    pub cols: Option<u16>,
    pub rows: Option<u16>,
}

/// The answer to a spawn request.
#[derive(Debug, Clone, PartialEq, Eq)]
pub struct SpawnResult {
    pub session_id: String,
}

impl SpawnArgs {
    /// The geometry to open the terminal with: the requested one, each side
    /// defaulting to 220 columns by 50 rows.
    pub fn geometry(&self) -> (r: (u16, u16))
        ensures
            r.0 == (match self.cols {
                Some(c) => c,
                None => DEFAULT_COLS,
            }),
            r.1 == (match self.rows {
                Some(n) => n,
                None => DEFAULT_ROWS,
            }),
    {
        let cols = match self.cols {
            Some(c) => c,
            None => DEFAULT_COLS,
        };
        let rows = match self.rows {
            Some(n) => n,
            None => DEFAULT_ROWS,
        };
        (cols, rows)
    }

    /// The directory to start the command in: the requested one, or else the
    /// configured repository, if any.
    pub fn working_dir(&self, repo_path: &Option<String>) -> (r: Option<String>)
        ensures
            match self.cwd {
                Some(d) => r matches Some(x) && x@ == d@,
                None => match repo_path {
                    Some(p) => r matches Some(x) && x@ == p@,
                    None => r is None,
                },
            },
    {
        match &self.cwd {
            Some(d) => Some(d.clone()),
            None => match repo_path {
                Some(p) => Some(p.clone()),
                None => None,
            },
        }
    }
}

/// The repository that sandbox operations act on: the configured one, or
/// `RepoNotFound` where none is configured.
pub fn configured_repo(repo_path: &Option<String>) -> (r: Result<String, SandboxError>)
    ensures
        match repo_path {
            Some(p) => r matches Ok(x) && x@ == p@,
            None => r == Err::<String, SandboxError>(SandboxError::RepoNotFound),
        },
{
    match repo_path {
        Some(p) => Ok(p.clone()),
        None => Err(SandboxError::RepoNotFound),
    }
}

/// The program to start when a spawn request names none: `cmd.exe` on
/// Windows, elsewhere the user's shell (`shell`, from the environment) or
/// `/bin/bash` where that is unset.
pub fn shell_program(windows: bool, shell: Option<String>) -> (r: String)
    ensures
        windows ==> r@ == "cmd.exe"@,
        !windows ==> r@ == (match shell {
            Some(s) => s@,
            None => "/bin/bash"@,
        }),
{
    if windows {
        String::from_str("cmd.exe")
    } else {
        match shell {
            Some(s) => s,
            None => String::from_str("/bin/bash"),
        }
    }
}

} // verus!
