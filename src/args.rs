//! The command line: the user's subcommands, and the internal `sandbox` mode
//! in which the executable hosts one module.
use vstd::prelude::*;

verus! {

/// The id of a module in the registry, `author/name`.
#[verifier::external_type_specification]
#[verifier::external_body]
pub struct ExModuleID(sn0int_common::ModuleID);

/// A shell for which completions can be generated.
#[verifier::external_type_specification]
#[verifier::external_body]
pub struct ExShell(structopt::clap::Shell);

/// A named workspace, holding its own database.
#[derive(Clone, Debug)]
pub struct Workspace {
    pub name: String,
}

#[derive(Debug)]
pub struct Args {
    /// Select a different workspace instead of the default
    pub workspace: Option<Workspace>,
    pub subcommand: Option<SubCommand>,
}

impl Args {
    /// Whether the executable was invoked as a sandbox host.
    pub fn is_sandbox(&self) -> (r: bool)
        ensures
            r == (self.subcommand matches Some(SubCommand::Sandbox(_))),
    {
        match self.subcommand {
            Some(SubCommand::Sandbox(_)) => true,
            _ => false,
        }
    }
}

#[derive(Debug)]
pub enum SubCommand {
    /// Run a module directly
    Run(Run),
    /// For internal use
    Sandbox(Sandbox),
    /// Login to the registry for publishing
    Login(Login),
    /// Publish a script to the registry
    Publish(Publish),
    /// Install a module from the registry
    Install(Install),
    /// Search in the registry
    Search(Search),
    /// Generate shell completions
    Completions(Completions),
}

#[derive(Debug)]
pub struct Run {
    pub module: Option<String>,
    pub file: Option<String>,
    pub threads: usize,
    pub verbose: u64,
}

#[derive(Debug)]
pub struct Sandbox {
    /// This value is only used for process listings
    pub label: String,
}

#[derive(Debug)]
pub struct Login {}

#[derive(Debug)]
pub struct Publish {
    /// The scripts to publish
    pub paths: Vec<String>,
}

#[derive(Debug)]
pub struct Install {
    /// The script to install
    pub module: sn0int_common::ModuleID,
    /// Specify the version, defaults to the latest version
    pub version: Option<String>,
}

#[derive(Debug)]
pub struct Search {
    /// The search query
    pub query: String,
}

#[derive(Debug)]
pub struct Completions {
    pub shell: structopt::clap::Shell,
}

} // verus!
