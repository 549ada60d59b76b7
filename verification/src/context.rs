//! The directories that an operation works from. They are handed in, never
//! read from the process, so that an operation can run against any pair of
//! them.

use crate::utils::chain;
use crate::utils::del_start_separator;
use crate::utils::join;
use crate::utils::joined;
use crate::utils::without_leading_separator;
use vstd::prelude::*;
use vstd::string::StringExecFns;

verus! {

/// The working directory and the home directory of the operator.
#[derive(Debug)]
pub struct WorkingContext {
    pub cwd: String,
    pub home_dir: String,
}

/// Where the registry is kept: the file `.rpush_config` in the home
/// directory `home_dir`.
pub open spec fn config_path_of(home_dir: Seq<char>) -> Seq<char> {
    home_dir + "/"@ + ".rpush_config"@
}

/// The directory that `pushed_dir` names under the working directory
/// `cwd`: one leading separator of `pushed_dir` is dropped first, so that
/// the result lies under `cwd`.
pub open spec fn resolved(cwd: Seq<char>, pushed_dir: Seq<char>) -> Seq<char> {
    joined(cwd, without_leading_separator(pushed_dir))
}

impl WorkingContext {
    /// A context of the two directories given.
    pub fn new(cwd: &str, home_dir: &str) -> (r: Self)
        ensures
            r.cwd@ == cwd@,
            r.home_dir@ == home_dir@,
    {
        WorkingContext { cwd: cwd.to_owned(), home_dir: home_dir.to_owned() }
    }

    /// The path of the file that holds the registry.
    pub fn get_config_path(&self) -> (r: String)
        ensures
            r@ == config_path_of(self.home_dir@),
    {
        chain(self.home_dir.as_str(), "/").concat(".rpush_config")
    }

    /// The absolute path of the directory `pushed_dir`.
    pub fn resolve(&self, pushed_dir: &str) -> (r: String)
        ensures
            r@ == resolved(self.cwd@, pushed_dir@),
    {
        join(self.cwd.as_str(), del_start_separator(pushed_dir))
    }
}

} // verus!
