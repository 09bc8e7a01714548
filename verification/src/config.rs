//! What the caller asks for.

use vstd::prelude::*;

verus! {

/// The settings of one provisioning run.
#[derive(Clone, Debug, PartialEq, Eq)]
pub struct Config {
    /// Name of the repository, without the `.git` suffix.
    pub name: String,
    /// Directory under which the repository is created.
    pub base_path: String,
    /// The caller's working directory, as an absolute path. The absolute path
    /// of a repository under a base path that is not absolute begins here.
    pub working_dir: String,
    /// Whether a directory that is in the way may be deleted.
    pub force: bool,
    /// Whether to print the new absolute path instead of registering it as
    /// `origin`.
    pub skip_origin_add: bool,
}

/// A [`Config`] as plain mathematical values.
pub struct ConfigView {
    pub name: Seq<char>,
    pub base_path: Seq<char>,
    pub working_dir: Seq<char>,
    pub force: bool,
    pub skip_origin_add: bool,
}

impl View for Config {
    type V = ConfigView;

    open spec fn view(&self) -> ConfigView {
        ConfigView {
            name: self.name@,
            base_path: self.base_path@,
            working_dir: self.working_dir@,
            force: self.force,
            skip_origin_add: self.skip_origin_add,
        }
    }
}

impl ConfigView {
    /// The directory that a run with these settings creates.
    pub open spec fn target(self) -> Seq<char> {
        crate::naming::target_path_of(self.base_path, self.name)
    }

    /// The absolute path of that directory: what the tools are given and
    /// what is printed.
    pub open spec fn absolute_target(self) -> Seq<char> {
        crate::naming::absolute_of(self.working_dir, self.target())
    }
}

} // verus!
