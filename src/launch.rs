use vstd::prelude::*;

use crate::error::{AppError, AppResult};
use crate::notify::ProcessExit;
use crate::path::{parent, parent_of};

verus! {

/// `text` between double quotes.
pub open spec fn quoted(text: Seq<char>) -> Seq<char> {
    "\""@ + text + "\""@
}

/// The shell command that runs a game: DOSBox on the game's directory, with
/// the base configuration and then the game's own.
pub open spec fn game_command(
    dosbox_exe: Seq<char>,
    mount: Seq<char>,
    base_config: Seq<char>,
    config: Seq<char>,
) -> Seq<char> {
    quoted(dosbox_exe) + " "@ + quoted(mount) + " -conf "@ + quoted(base_config) + " -conf "@
        + quoted(config)
}

/// The shell command that runs DOSBox with free-form parameters.
pub open spec fn dosbox_command(dosbox_exe: Seq<char>, params: Seq<char>) -> Seq<char> {
    quoted(dosbox_exe) + " "@ + params
}

fn quote(text: &str) -> (r: String)
    ensures
        r@ == quoted(text@),
{
    let mut r = "\"".to_owned();
    r.append(text);
    r.append("\"");
    r
}

/// The directory a game runs in: the one that holds its configuration.
pub fn mount_path(config_path: &str) -> (r: AppResult<String>)
    ensures
        match parent_of(config_path@) {
            Some(dir) => r matches Ok(m) && m@ == dir,
            None => r == Err::<String, AppError>(AppError::FailedResolvingMountPath),
        },
{
    match parent(config_path) {
        Some(dir) => Ok(dir),
        None => Err(AppError::FailedResolvingMountPath),
    }
}

/// The shell command that runs a game.
pub fn game_command_line(dosbox_exe: &str, mount: &str, base_config: &str, config: &str) -> (r:
    String)
    ensures
        r@ == game_command(dosbox_exe@, mount@, base_config@, config@),
{
    let mut r = quote(dosbox_exe);
    r.append(" ");
    r.append(&quote(mount));
    r.append(" -conf ");
    r.append(&quote(base_config));
    r.append(" -conf ");
    r.append(&quote(config));
    r
}

/// The shell command that runs DOSBox with `params`.
pub fn dosbox_command_line(dosbox_exe: &str, params: &str) -> (r: String)
    ensures
        r@ == dosbox_command(dosbox_exe@, params@),
{
    let mut r = quote(dosbox_exe);
    r.append(" ");
    r.append(params);
    r
}

/// The arguments that make DOSBox write its default configuration to
/// `config_path` and quit.
pub fn write_config_args(config_path: &str) -> (r: Vec<String>)
    ensures
        r@.len() == 3,
        r@[0]@ == "-c"@,
        r@[1]@ == "CONFIG -writeconf "@ + quoted(config_path@),
        r@[2]@ == "-exit"@,
{
    let mut command = "CONFIG -writeconf ".to_owned();
    command.append(&quote(config_path));
    let mut r: Vec<String> = Vec::new();
    r.push("-c".to_owned());
    r.push(command);
    r.push("-exit".to_owned());
    r
}

/// The result of a DOSBox run whose output is asked for: what it wrote to
/// standard output where it succeeded (nothing where that was not text), its
/// failure otherwise.
pub fn dosbox_output(exit: ProcessExit, stdout: Option<String>) -> (r: AppResult<String>)
    ensures
        exit.success ==> match stdout {
            Some(out) => r == Ok::<String, AppError>(out),
            None => r matches Ok(out) && out@.len() == 0,
        },
        !exit.success ==> r == Err::<String, AppError>(
            AppError::DOSBoxRunFailed { exit_status: exit.status, stderr: exit.stderr },
        ),
{
    if exit.success {
        match stdout {
            Some(out) => Ok(out),
            None => Ok(String::new()),
        }
    } else {
        Err(AppError::DOSBoxRunFailed { exit_status: exit.status, stderr: exit.stderr })
    }
}

} // verus!
