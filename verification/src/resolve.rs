//! Where the flake lives: the directory is named by the environment or on
//! the command line, and has to be on disk.

use crate::cli::Cli;
use crate::errors::FlakePathError;
use vstd::prelude::*;

verus! {

/// The variable of the environment that names the flake's directory.
pub const FLAKE_DIR_VAR: &'static str = "DV_FLAKE_DIR";

/// A string that may be missing, as contracts see it.
pub open spec fn text_view(s: Option<String>) -> Option<Seq<char>> {
    match s {
        Some(s) => Some(s@),
        None => None,
    }
}

/// The directory that is named. The environment goes first, where it names
/// one and the name is not empty; the command line comes second.
pub open spec fn named_path(env_path: Option<Seq<char>>, arg_path: Option<Seq<char>>) -> Option<
    Seq<char>,
> {
    if env_path is Some && env_path->Some_0.len() > 0 {
        env_path
    } else {
        arg_path
    }
}

/// The directory that the user names. `env_path` is what the variable
/// `DV_FLAKE_DIR` holds, where it is set.
pub fn get_flake_pathdir(env_path: Option<String>, args: &Cli) -> (r: Result<
    String,
    FlakePathError,
>)
    ensures
        match r {
            Ok(path) => named_path(text_view(env_path), text_view(args.path)) == Some(path@),
            Err(e) => e == FlakePathError::Empty && named_path(
                text_view(env_path),
                text_view(args.path),
            ) is None,
        },
{
    if let Some(path) = env_path {
        if !path.as_str().is_empty() {
            return Ok(path);
        }
    }
    match &args.path {
        Some(path) => Ok(path.clone()),
        None => Err(FlakePathError::Empty),
    }
}

/// The directory, once the disk was asked for it: `exists` is the disk's
/// answer.
pub fn found_flake_pathdir(path: String, exists: bool) -> (r: Result<String, FlakePathError>)
    ensures
        exists ==> r == Ok::<String, FlakePathError>(path),
        !exists ==> r == Err::<String, FlakePathError>(FlakePathError::NotFound(path)),
{
    if exists {
        Ok(path)
    } else {
        Err(FlakePathError::NotFound(path))
    }
}

/// Where the environment names a directory, the command line is not asked.
pub proof fn lemma_environment_goes_first(env_path: Seq<char>, arg_path: Option<Seq<char>>)
    requires
        env_path.len() > 0,
    ensures
        named_path(Some(env_path), arg_path) == Some(env_path),
{
}

/// Where the environment names nothing, the command line decides; where it
/// names nothing either, no directory is named.
pub proof fn lemma_command_line_goes_second(arg_path: Option<Seq<char>>)
    ensures
        named_path(None, arg_path) == arg_path,
        named_path(Some(Seq::empty()), arg_path) == arg_path,
        named_path(None, None) is None,
{
}

} // verus!
