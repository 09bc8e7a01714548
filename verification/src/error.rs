//! Why a provisioning run ended without a repository.

use vstd::prelude::*;
use vstd::string::StringExecFns;

verus! {

/// The ways in which a run fails. Each one ends the run at once.
#[derive(Clone, Debug, PartialEq, Eq)]
pub enum ProvisionError {
    /// The base directory is not an existing directory.
    InvalidBasePath { path: String },
    /// The repository's directory exists and overwriting was not asked for.
    TargetAlreadyExists { path: String },
    /// The directory in the way could not be deleted.
    DeletionFailed { detail: String },
    /// The repository's directory could not be created.
    CreationFailed { detail: String },
    /// The tool that initialises the repository could not be started.
    ExternalToolLaunchFailed { detail: String },
}

/// A [`ProvisionError`] as plain mathematical values.
pub enum ProvisionErrorView {
    InvalidBasePath { path: Seq<char> },
    TargetAlreadyExists { path: Seq<char> },
    DeletionFailed { detail: Seq<char> },
    CreationFailed { detail: Seq<char> },
    ExternalToolLaunchFailed { detail: Seq<char> },
}

impl View for ProvisionError {
    type V = ProvisionErrorView;

    open spec fn view(&self) -> ProvisionErrorView {
        match self {
            ProvisionError::InvalidBasePath { path } => ProvisionErrorView::InvalidBasePath {
                path: path@,
            },
            ProvisionError::TargetAlreadyExists {
                path,
            } => ProvisionErrorView::TargetAlreadyExists { path: path@ },
            ProvisionError::DeletionFailed { detail } => ProvisionErrorView::DeletionFailed {
                detail: detail@,
            },
            ProvisionError::CreationFailed { detail } => ProvisionErrorView::CreationFailed {
                detail: detail@,
            },
            ProvisionError::ExternalToolLaunchFailed {
                detail,
            } => ProvisionErrorView::ExternalToolLaunchFailed { detail: detail@ },
        }
    }
}

impl ProvisionErrorView {
    /// The text that describes the failure to a person.
    ///
    /// The two failures that this operation finds by itself are worded here;
    /// the others are described by what the system said.
    pub open spec fn description(self) -> Seq<char> {
        match self {
            ProvisionErrorView::InvalidBasePath { path } => "Path "@ + path + " does not exist"@,
            ProvisionErrorView::TargetAlreadyExists { path } => "Repo "@ + path
                + " exists. Use -f/--force to overwrite"@,
            ProvisionErrorView::DeletionFailed { detail } => detail,
            ProvisionErrorView::CreationFailed { detail } => detail,
            ProvisionErrorView::ExternalToolLaunchFailed { detail } => detail,
        }
    }
}

impl ProvisionError {
    /// Describes the failure to a person.
    pub fn describe(&self) -> (text: String)
        ensures
            text@ == self@.description(),
    {
        match self {
            ProvisionError::InvalidBasePath { path } => {
                let mut text = String::from_str("Path ");
                text.append(path.as_str());
                text.append(" does not exist");
                text
            },
            ProvisionError::TargetAlreadyExists { path } => {
                let mut text = String::from_str("Repo ");
                text.append(path.as_str());
                text.append(" exists. Use -f/--force to overwrite");
                text
            },
            ProvisionError::DeletionFailed { detail } => detail.clone(),
            ProvisionError::CreationFailed { detail } => detail.clone(),
            ProvisionError::ExternalToolLaunchFailed { detail } => detail.clone(),
        }
    }
}

} // verus!
