//! The provisioning operation as a machine that decides and never acts.
//!
//! A run starts with [`Provisioner::start`], which hands out the first
//! [`Step`]. While the step is [`Step::Perform`], the caller carries out its
//! request and passes the [`Reply`] to [`Provisioner::advance`], which hands
//! out the next step. [`Step::Finished`] ends the run with its result.
//!
//! The tools are started and left alone: what becomes of them after their
//! start is not asked, and whether the registration as `origin` could be
//! started at all does not change the result.

use vstd::prelude::*;

use crate::config::{Config, ConfigView};
use crate::error::{ProvisionError, ProvisionErrorView};
use crate::naming::{absolute_path, target_path};
use crate::request::{
    add_origin_command, add_origin_command_of, init_bare_command, init_bare_command_of, Reply,
    ReplyView, Request, RequestView,
};

verus! {

/// Where a run stands: which request is out and waits for its reply.
#[derive(Clone, Copy, Debug, PartialEq, Eq)]
pub enum Phase {
    /// Asking whether the base directory is there.
    CheckingBase,
    /// Asking whether the repository's directory exists already.
    CheckingTarget,
    /// Deleting the directory that is in the way.
    Removing,
    /// Creating the repository's directory.
    Creating,
    /// Starting the tool that initialises the repository.
    Initializing,
    /// Starting the tool that registers the repository as `origin`.
    Registering,
    /// Printing the absolute path of the repository.
    Announcing,
}

/// A run in progress.
#[derive(Debug, PartialEq, Eq)]
pub struct Provisioner {
    config: Config,
    target: String,
    absolute_target: String,
    phase: Phase,
}

/// A [`Provisioner`] as plain mathematical values.
pub struct ProvisionerView {
    pub config: ConfigView,
    pub phase: Phase,
}

/// What the caller does next.
#[derive(Debug, PartialEq, Eq)]
pub enum Step {
    /// Carry out `request` and pass the reply to `then`.
    Perform { request: Request, then: Provisioner },
    /// The run is over.
    Finished { result: Result<(), ProvisionError> },
}

/// A [`Step`] as plain mathematical values.
pub enum StepView {
    Perform { request: RequestView, then: ProvisionerView },
    Finished { result: Result<(), ProvisionErrorView> },
}

/// The request that is out in `phase` of a run with the settings `config`.
///
/// The file system is asked about the paths as they were given. The tools
/// and the printed line get the absolute path of the repository's
/// directory, so that they mean the same place wherever they are read.
pub open spec fn request_in(config: ConfigView, phase: Phase) -> RequestView {
    match phase {
        Phase::CheckingBase => RequestView::IsDir { path: config.base_path },
        Phase::CheckingTarget => RequestView::Exists { path: config.target() },
        Phase::Removing => RequestView::RemoveTree { path: config.target() },
        Phase::Creating => RequestView::CreateDirs { path: config.target() },
        Phase::Initializing => RequestView::Launch {
            command: init_bare_command_of(config.absolute_target()),
        },
        Phase::Registering => RequestView::Launch {
            command: add_origin_command_of(config.absolute_target()),
        },
        Phase::Announcing => RequestView::Print { line: config.absolute_target() },
    }
}

/// The step that puts a run into `phase`.
pub open spec fn entering(config: ConfigView, phase: Phase) -> StepView {
    StepView::Perform {
        request: request_in(config, phase),
        then: ProvisionerView { config, phase },
    }
}

/// The step that ends a run with `error`.
pub open spec fn failing(error: ProvisionErrorView) -> StepView {
    StepView::Finished { result: Err(error) }
}

/// The step with which a run with the settings `config` starts.
pub open spec fn first_step(config: ConfigView) -> StepView {
    entering(config, Phase::CheckingBase)
}

/// The step that follows when `reply` comes in for the request that is out.
///
/// The operation is linear with two forks. A missing base directory ends it.
/// A directory in the way ends it too, unless overwriting was asked for:
/// then the directory is deleted first. A failure to delete, to create or to
/// start the initialising tool ends it. The last request either registers
/// the repository's absolute path as `origin` or prints it, and the run
/// succeeds whatever comes of that request. A reply that does not answer the request
/// that is out changes nothing: the same request is handed out again.
pub open spec fn step_after(machine: ProvisionerView, reply: ReplyView) -> StepView {
    let config = machine.config;
    match (machine.phase, reply) {
        (Phase::CheckingBase, ReplyView::Found(true)) => entering(config, Phase::CheckingTarget),
        (Phase::CheckingBase, ReplyView::Found(false)) => failing(
            ProvisionErrorView::InvalidBasePath { path: config.base_path },
        ),
        (Phase::CheckingTarget, ReplyView::Found(true)) => if config.force {
            entering(config, Phase::Removing)
        } else {
            failing(ProvisionErrorView::TargetAlreadyExists { path: config.target() })
        },
        (Phase::CheckingTarget, ReplyView::Found(false)) => entering(config, Phase::Creating),
        (Phase::Removing, ReplyView::Done) => entering(config, Phase::Creating),
        (Phase::Removing, ReplyView::Failed { detail }) => failing(
            ProvisionErrorView::DeletionFailed { detail },
        ),
        (Phase::Creating, ReplyView::Done) => entering(config, Phase::Initializing),
        (Phase::Creating, ReplyView::Failed { detail }) => failing(
            ProvisionErrorView::CreationFailed { detail },
        ),
        (Phase::Initializing, ReplyView::Done) => if config.skip_origin_add {
            entering(config, Phase::Announcing)
        } else {
            entering(config, Phase::Registering)
        },
        (Phase::Initializing, ReplyView::Failed { detail }) => failing(
            ProvisionErrorView::ExternalToolLaunchFailed { detail },
        ),
        (Phase::Registering, ReplyView::Done) => StepView::Finished { result: Ok(()) },
        (Phase::Registering, ReplyView::Failed { .. }) => StepView::Finished { result: Ok(()) },
        (Phase::Announcing, ReplyView::Done) => StepView::Finished { result: Ok(()) },
        (Phase::Announcing, ReplyView::Failed { .. }) => StepView::Finished { result: Ok(()) },
        _ => entering(config, machine.phase),
    }
}

/// A reply that does not answer the request that is out changes nothing,
/// and no other reply leaves the run where it was.
pub proof fn law_only_unfitting_replies_change_nothing(machine: ProvisionerView, reply: ReplyView)
    ensures
        step_after(machine, reply) == entering(machine.config, machine.phase) <==> !reply.answers(
            request_in(machine.config, machine.phase),
        ),
{
}

impl View for Provisioner {
    type V = ProvisionerView;

    closed spec fn view(&self) -> ProvisionerView {
        ProvisionerView { config: self.config@, phase: self.phase }
    }
}

impl View for Step {
    type V = StepView;

    open spec fn view(&self) -> StepView {
        match self {
            Step::Perform { request, then } => StepView::Perform {
                request: request@,
                then: then@,
            },
            Step::Finished { result } => StepView::Finished {
                result: match result {
                    Ok(_) => Ok(()),
                    Err(error) => Err(error@),
                },
            },
        }
    }
}

impl Provisioner {
    /// The target path and its absolute form are computed once and kept
    /// beside the settings.
    #[verifier::type_invariant]
    spec fn target_kept(self) -> bool {
        &&& self.target@ == self.config@.target()
        &&& self.absolute_target@ == self.config@.absolute_target()
    }

    /// Starts a run: names the repository's directory, works out its absolute
    /// path, and asks whether the base directory is there.
    pub fn start(config: Config) -> (step: Step)
        ensures
            step@ == first_step(config@),
    {
        let target = target_path(config.base_path.as_str(), config.name.as_str());
        let absolute_target = absolute_path(config.working_dir.as_str(), target.as_str());
        let machine = Provisioner { config, target, absolute_target, phase: Phase::CheckingBase };
        machine.enter(Phase::CheckingBase)
    }

    /// The phase that the run is in.
    pub fn phase(&self) -> (phase: Phase)
        ensures
            phase == self@.phase,
    {
        self.phase
    }

    /// Takes the reply to the request that is out and decides what follows.
    pub fn advance(self, reply: Reply) -> (step: Step)
        ensures
            step@ == step_after(self@, reply@),
    {
        proof {
            use_type_invariant(&self);
        }
        match self.phase {
            Phase::CheckingBase => match reply {
                Reply::Found(true) => self.enter(Phase::CheckingTarget),
                Reply::Found(false) => Step::Finished {
                    result: Err(ProvisionError::InvalidBasePath { path: self.config.base_path }),
                },
                _ => self.enter(Phase::CheckingBase),
            },
            Phase::CheckingTarget => match reply {
                Reply::Found(true) => if self.config.force {
                    self.enter(Phase::Removing)
                } else {
                    Step::Finished {
                        result: Err(ProvisionError::TargetAlreadyExists { path: self.target }),
                    }
                },
                Reply::Found(false) => self.enter(Phase::Creating),
                _ => self.enter(Phase::CheckingTarget),
            },
            Phase::Removing => match reply {
                Reply::Done => self.enter(Phase::Creating),
                Reply::Failed { detail } => Step::Finished {
                    result: Err(ProvisionError::DeletionFailed { detail }),
                },
                _ => self.enter(Phase::Removing),
            },
            Phase::Creating => match reply {
                Reply::Done => self.enter(Phase::Initializing),
                Reply::Failed { detail } => Step::Finished {
                    result: Err(ProvisionError::CreationFailed { detail }),
                },
                _ => self.enter(Phase::Creating),
            },
            Phase::Initializing => match reply {
                Reply::Done => if self.config.skip_origin_add {
                    self.enter(Phase::Announcing)
                } else {
                    self.enter(Phase::Registering)
                },
                Reply::Failed { detail } => Step::Finished {
                    result: Err(ProvisionError::ExternalToolLaunchFailed { detail }),
                },
                _ => self.enter(Phase::Initializing),
            },
            Phase::Registering => match reply {
                Reply::Found(_) => self.enter(Phase::Registering),
                _ => Step::Finished { result: Ok(()) },
            },
            Phase::Announcing => match reply {
                Reply::Found(_) => self.enter(Phase::Announcing),
                _ => Step::Finished { result: Ok(()) },
            },
        }
    }

    /// Puts the run into `phase` and hands out the request of that phase.
    fn enter(self, phase: Phase) -> (step: Step)
        ensures
            step@ == entering(self@.config, phase),
    {
        proof {
            use_type_invariant(&self);
        }
        let request = match phase {
            Phase::CheckingBase => Request::IsDir { path: self.config.base_path.clone() },
            Phase::CheckingTarget => Request::Exists { path: self.target.clone() },
            Phase::Removing => Request::RemoveTree { path: self.target.clone() },
            Phase::Creating => Request::CreateDirs { path: self.target.clone() },
            Phase::Initializing => Request::Launch {
                command: init_bare_command(self.absolute_target.as_str()),
            },
            Phase::Registering => Request::Launch {
                command: add_origin_command(self.absolute_target.as_str()),
            },
            Phase::Announcing => Request::Print { line: self.absolute_target.clone() },
        };
        Step::Perform {
            request,
            then: Provisioner {
                config: self.config,
                target: self.target,
                absolute_target: self.absolute_target,
                phase,
            },
        }
    }
}

} // verus!
