//! Where the task list is kept.

use vstd::prelude::*;
use vstd::string::StringExecFns;

verus! {

/// Location of the task file.
#[derive(Debug, PartialEq, Eq)]
pub struct Config {
    pub data_directory: String,
    pub task_filename: String,
}


/// Name of the task file.
pub open spec fn task_file_name() -> Seq<char> {
    "taiginator.md"@
}

/// The directory used where the user has no home directory.
pub open spec fn fallback_dir() -> Seq<char> {
    "."@
}

/// Calls `dirs::home_dir`, which reads the user's home directory from the
/// environment and the system, and hands the path out as text. Nothing is
/// claimed of the result.
#[verifier::external_body]
fn home_dir() -> (home: Option<String>) {
    dirs::home_dir().map(|p| p.to_string_lossy().into_owned())
}

/// Calls `std::path::PathBuf::push` on `base` with `name` and hands the path
/// out as text. The separator it puts between the two is the platform's, so
/// nothing is claimed of the result.
#[verifier::external_body]
fn push_path(base: &str, name: &str) -> (path: String) {
    let mut path = std::path::PathBuf::from(base);
    path.push(name);
    path.to_string_lossy().into_owned()
}

impl Config {
    /// The configuration for a given data directory, or for the fallback
    /// directory where there is none.
    pub fn in_directory(data_directory: Option<String>) -> (config: Config)
        ensures
            config.task_filename@ == task_file_name(),
            config.data_directory@ == match data_directory {
                Some(dir) => dir@,
                None => fallback_dir(),
            },
    {
        Config {
            data_directory: match data_directory {
                Some(dir) => dir,
                None => String::from_str("."),
            },
            task_filename: String::from_str("taiginator.md"),
        }
    }
}

impl Default for Config {
    /// The configuration on this machine: the task file in its directory
    /// below the user's home, or in the current directory where the user has
    /// no home.
    fn default() -> (config: Config)
        ensures
            config.task_filename@ == task_file_name(),
    {
        let data_directory = match home_dir() {
            Some(home) => Some(push_path(home.as_str(), "taiginator")),
            None => None,
        };
        Config::in_directory(data_directory)
    }
}

} // verus!
