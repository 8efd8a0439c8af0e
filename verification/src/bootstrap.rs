//! Settings and the root directory at start-up.

use vstd::prelude::*;
use crate::structs::Config;

verus! {

/// Why the session cannot start.
#[derive(Debug, Clone, Copy, PartialEq, Eq, Structural)]
pub enum ConfigError {
    /// The variable that names the root directory is not set.
    MissingRootDir,
    /// It could not be found out whether the root directory exists.
    UnreadableRoot,
}

/// The name of the environment variable that holds the root directory.
pub const ROOT_DIR_VARIABLE: &'static str = "PARKNOTES_ROOT_DIR";

/// How many lines a menu keeps visible around its cursor.
pub const MENU_SCROLL_BUFFER: u16 = 10;

impl Config {
    /// The settings of a session, from the value of the environment
    /// variable that names the root directory. The directories of version
    /// control and of build output are ignored.
    pub fn from_root_dir(root_dir: Option<String>) -> (config: Result<Config, ConfigError>)
        ensures
            root_dir is None ==> config == Err::<Config, ConfigError>(ConfigError::MissingRootDir),
            root_dir matches Some(dir) ==> {
                &&& config matches Ok(c)
                &&& c.root_dir == dir
                &&& c.ignore_dirs.deep_view() == seq![".git"@, "bin"@]
                &&& c.menu_scroll_buffer == MENU_SCROLL_BUFFER
            },
    {
        match root_dir {
            None => Err(ConfigError::MissingRootDir),
            Some(dir) => {
                let mut ignore_dirs: Vec<String> = Vec::new();
                ignore_dirs.push(String::from_str(".git"));
                ignore_dirs.push(String::from_str("bin"));
                assert(ignore_dirs.deep_view() =~= seq![".git"@, "bin"@]);
                Ok(Config { root_dir: dir, ignore_dirs, menu_scroll_buffer: MENU_SCROLL_BUFFER })
            },
        }
    }
}

/// `std::path::Path::try_exists` on the path that the text names: `Some`
/// with what it found, `None` where it could not find out. What comes back
/// depends on what is on disk, so nothing is claimed of it.
#[verifier::external_body]
fn path_try_exists(path: &str) -> (found: Option<bool>) {
    std::path::Path::new(path).try_exists().ok()
}

/// Reads the answer of the probe for the root directory: whether the
/// directory is there, or that the probe failed.
pub fn root_folder_found(probe: Option<bool>) -> (found: Result<bool, ConfigError>)
    ensures
        found == match probe {
            Some(exists) => Ok::<bool, ConfigError>(exists),
            None => Err::<bool, ConfigError>(ConfigError::UnreadableRoot),
        },
{
    match probe {
        Some(exists) => Ok(exists),
        None => Err(ConfigError::UnreadableRoot),
    }
}

/// Whether the root directory exists already. The answer is whatever the
/// file system gives at the time of the call; the only error is the probe's
/// own failure.
pub fn detect_root_folder(config: &Config) -> (found: Result<bool, ConfigError>)
    ensures
        found matches Err(e) ==> e == ConfigError::UnreadableRoot,
{
    root_folder_found(path_try_exists(config.root_dir.as_str()))
}

} // verus!
