use vstd::prelude::*;
use crate::config::{Config, RunError};
use crate::resolve::{determine_ssh_key, resolve};

verus! {

/// The wrapped version-control tool.
pub const TOOL_PROGRAM: &'static str = "git";

/// The variable through which the wrapped tool takes the command it uses for remote access.
pub const SSH_COMMAND_VAR: &'static str = "GIT_SSH_COMMAND";

/// The configuration file's name, in the user's home directory.
pub const CONFIG_FILE_NAME: &'static str = ".git_ssh_ids";

/// The remote-access command that authenticates with `key` and no other identity.
pub open spec fn ssh_command_text(key: Seq<char>) -> Seq<char> {
    "ssh -i "@ + key + " -o IdentitiesOnly=yes"@
}

/// A start of the wrapped tool: its program, its arguments, and one variable set in
/// its environment.
#[derive(Debug, Clone)]
pub struct Invocation {
    pub program: String,
    pub args: Vec<String>,
    pub env_name: String,
    pub env_value: String,
}

/// The value of the remote-access variable for `key`.
pub fn ssh_command(key: &str) -> (r: String)
    ensures
        r@ == ssh_command_text(key@),
{
    let mut r = String::from_str("ssh -i ");
    r.append(key);
    r.append(" -o IdentitiesOnly=yes");
    r
}

/// What to start, given the loaded configuration, the working directory (absent
/// where it could not be determined) and the arguments after the program name. Any
/// earlier failure is handed on, and then nothing is to be started.
pub fn plan_invocation(
    config: Result<Config, RunError>,
    current_dir: Option<String>,
    args: Vec<String>,
) -> (r: Result<Invocation, RunError>)
    ensures
        config is Err ==> r == Err::<Invocation, RunError>(config->Err_0),
        config is Ok && current_dir is None ==> r == Err::<Invocation, RunError>(
            RunError::EnvironmentResolutionError,
        ),
        r is Ok <==> (config is Ok && current_dir is Some),
        r is Ok ==> ({
            let inv = r->Ok_0;
            &&& inv.program@ == TOOL_PROGRAM@
            &&& inv.args@ == args@
            &&& inv.env_name@ == SSH_COMMAND_VAR@
            &&& inv.env_value@ == ssh_command_text(
                resolve(config->Ok_0@, current_dir->Some_0@),
            )
        }),
{
    match config {
        Err(e) => Err(e),
        Ok(c) => match current_dir {
            None => Err(RunError::EnvironmentResolutionError),
            Some(dir) => {
                let key = determine_ssh_key(&c, dir.as_str());
                let env_value = ssh_command(key.as_str());
                Ok(
                    Invocation {
                        program: String::from_str(TOOL_PROGRAM),
                        args,
                        env_name: String::from_str(SSH_COMMAND_VAR),
                        env_value,
                    },
                )
            },
        },
    }
}

/// The program's own exit code for the wrapped tool's: the same code, or 0 where
/// the tool ended without one (killed by a signal).
pub fn exit_code(tool_code: Option<i32>) -> (r: i32)
    ensures
        r == match tool_code {
            Some(c) => c,
            None => 0i32,
        },
{
    match tool_code {
        Some(c) => c,
        None => 0,
    }
}

} // verus!
