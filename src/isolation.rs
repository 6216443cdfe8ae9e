//! What crosses the process boundary at start: the module to run and the
//! start command that the child receives first.
use vstd::prelude::*;

verus! {

/// The DNS configuration captured on the parent side and handed to the child.
#[verifier::external_type_specification]
#[verifier::external_body]
pub struct ExResolver(chrootable_https::dns::Resolver);

/// A structured value, such as the argument handed to a module.
#[verifier::external_type_specification]
#[verifier::external_body]
pub struct ExValue(serde_json::Value);

/// A unit of module code with the name under which it is run.
#[derive(Clone, Debug)]
pub struct Module {
    pub author: String,
    pub name: String,
    pub code: String,
}

impl Module {
    /// The canonical name, `author/name`.
    pub fn canonical(&self) -> (r: String)
        ensures
            r@ == self.author@ + "/"@ + self.name@,
    {
        let mut r = self.author.clone();
        r.append("/");
        r.append(self.name.as_str());
        r
    }
}

/// The arguments with which the current executable is invoked to host a
/// module in a sandbox: `sandbox <canonical name>`.
pub fn sandbox_args(module: &Module) -> (r: Vec<String>)
    ensures
        r@.len() == 2,
        r@[0]@ == "sandbox"@,
        r@[1]@ == module.author@ + "/"@ + module.name@,
{
    let mut r: Vec<String> = Vec::new();
    r.push("sandbox".to_owned());
    r.push(module.canonical());
    r
}

/// The one message that the parent sends the child before anything else.
#[derive(Debug)]
pub struct StartCommand {
    pub verbose: u64,
    pub dns_config: chrootable_https::dns::Resolver,
    pub module: Module,
    pub arg: serde_json::Value,
}

impl StartCommand {
    pub fn new(
        verbose: u64,
        dns_config: chrootable_https::dns::Resolver,
        module: Module,
        arg: serde_json::Value,
    ) -> (r: StartCommand)
        ensures
            r.verbose == verbose,
            r.dns_config == dns_config,
            r.module == module,
            r.arg == arg,
    {
        StartCommand { verbose, dns_config, module, arg }
    }
}

} // verus!
