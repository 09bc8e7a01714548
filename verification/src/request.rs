//! What the provisioner asks its caller to do, and what the caller answers.

use vstd::prelude::*;
use vstd::string::StringExecFns;

verus! {

/// One invocation of the version-control tool.
#[derive(Clone, Debug, PartialEq, Eq)]
pub struct ToolCommand {
    /// The program to start, looked up on the search path.
    pub program: String,
    /// Its arguments, in order.
    pub args: Vec<String>,
    /// The directory to start it in; `None` is the caller's own.
    pub dir: Option<String>,
}

/// A [`ToolCommand`] as plain mathematical values.
pub struct ToolCommandView {
    pub program: Seq<char>,
    pub args: Seq<Seq<char>>,
    pub dir: Option<Seq<char>>,
}

impl View for ToolCommand {
    type V = ToolCommandView;

    open spec fn view(&self) -> ToolCommandView {
        ToolCommandView {
            program: self.program@,
            args: self.args@.map_values(|arg: String| arg@),
            dir: match self.dir {
                Some(dir) => Some(dir@),
                None => None,
            },
        }
    }
}

/// The command that turns the directory `target` into a bare repository.
pub open spec fn init_bare_command_of(target: Seq<char>) -> ToolCommandView {
    ToolCommandView { program: "git"@, args: seq!["init"@, "--bare"@], dir: Some(target) }
}

/// The command that registers `target` as the remote `origin` of the
/// repository in the caller's directory.
pub open spec fn add_origin_command_of(target: Seq<char>) -> ToolCommandView {
    ToolCommandView {
        program: "git"@,
        args: seq!["remote"@, "add"@, "origin"@, target],
        dir: None,
    }
}

/// Builds the command that turns the directory `target` into a bare
/// repository: the tool runs inside that directory. The provisioner names
/// the directory by its absolute path.
pub fn init_bare_command(target: &str) -> (command: ToolCommand)
    ensures
        command@ == init_bare_command_of(target@),
{
    let mut args: Vec<String> = Vec::new();
    args.push(String::from_str("init"));
    args.push(String::from_str("--bare"));
    let command = ToolCommand {
        program: String::from_str("git"),
        args,
        dir: Some(String::from_str(target)),
    };
    assert(command@.args =~= init_bare_command_of(target@).args);
    command
}

/// Builds the command that registers `target` as the remote `origin`: the
/// tool runs in the caller's directory and gets the path as the remote's
/// address. The provisioner hands in the absolute path.
pub fn add_origin_command(target: &str) -> (command: ToolCommand)
    ensures
        command@ == add_origin_command_of(target@),
{
    let mut args: Vec<String> = Vec::new();
    args.push(String::from_str("remote"));
    args.push(String::from_str("add"));
    args.push(String::from_str("origin"));
    args.push(String::from_str(target));
    let command = ToolCommand { program: String::from_str("git"), args, dir: None };
    assert(command@.args =~= add_origin_command_of(target@).args);
    command
}

/// One thing that the caller is asked to do.
#[derive(Clone, Debug, PartialEq, Eq)]
pub enum Request {
    /// Find out whether `path` is an existing directory.
    IsDir { path: String },
    /// Find out whether anything exists at `path`.
    Exists { path: String },
    /// Delete the directory `path` with all that is in it.
    RemoveTree { path: String },
    /// Create the directory `path`, and its parents as far as they are missing.
    CreateDirs { path: String },
    /// Start `command` and do not wait for it.
    Launch { command: ToolCommand },
    /// Write `line` to standard output.
    Print { line: String },
}

/// A [`Request`] as plain mathematical values.
pub enum RequestView {
    IsDir { path: Seq<char> },
    Exists { path: Seq<char> },
    RemoveTree { path: Seq<char> },
    CreateDirs { path: Seq<char> },
    Launch { command: ToolCommandView },
    Print { line: Seq<char> },
}

impl View for Request {
    type V = RequestView;

    open spec fn view(&self) -> RequestView {
        match self {
            Request::IsDir { path } => RequestView::IsDir { path: path@ },
            Request::Exists { path } => RequestView::Exists { path: path@ },
            Request::RemoveTree { path } => RequestView::RemoveTree { path: path@ },
            Request::CreateDirs { path } => RequestView::CreateDirs { path: path@ },
            Request::Launch { command } => RequestView::Launch { command: command@ },
            Request::Print { line } => RequestView::Print { line: line@ },
        }
    }
}

impl RequestView {
    /// Whether the request only asks a question.
    pub open spec fn is_query(self) -> bool {
        self is IsDir || self is Exists
    }
}

/// What the caller answers after carrying out a request.
#[derive(Clone, Debug, PartialEq, Eq)]
pub enum Reply {
    /// The answer to a question.
    Found(bool),
    /// The request was carried out.
    Done,
    /// The request could not be carried out; `detail` is what the system said.
    Failed { detail: String },
}

/// A [`Reply`] as plain mathematical values.
pub enum ReplyView {
    Found(bool),
    Done,
    Failed { detail: Seq<char> },
}

impl View for Reply {
    type V = ReplyView;

    open spec fn view(&self) -> ReplyView {
        match self {
            Reply::Found(found) => ReplyView::Found(*found),
            Reply::Done => ReplyView::Done,
            Reply::Failed { detail } => ReplyView::Failed { detail: detail@ },
        }
    }
}

impl ReplyView {
    /// Whether this is a reply to `request`: an answer to a question, an
    /// outcome for anything else.
    pub open spec fn answers(self, request: RequestView) -> bool {
        request.is_query() <==> self is Found
    }
}

} // verus!
