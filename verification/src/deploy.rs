use vstd::prelude::*;
use vstd::string::StringExecFns;

verus! {

/// Packages and uploads an application to a deployment environment. The
/// command itself is carried out by an external deployment plugin; this
/// type holds the arguments passed through to it and assembles the
/// plugin's invocation. Reading the environment and spawning the plugin
/// are the host's work.
#[derive(Debug, PartialEq, Eq)]
pub struct DeployCommand {
    /// All args to be passed through to the plugin.
    pub args: Vec<String>,
}

/// Logs into a deployment environment, again by handing through to the
/// configured deployment plugin.
#[derive(Debug, PartialEq, Eq)]
pub struct LoginCommand {
    /// All args to be passed through to the plugin.
    pub args: Vec<String>,
}

/// What the environment told the host about the deployment-plugin
/// variable, reduced to a plain value.
#[derive(Debug, PartialEq, Eq)]
pub enum PluginVarState {
    /// The variable is set to this value.
    Present(String),
    /// The variable is not set.
    Absent,
    /// The variable is set but its value could not be read.
    Unreadable,
}

/// The outcome of plugin selection: the plugin to run, and whether it was
/// chosen by default — in which case the host warns the operator that an
/// explicit choice will be required in a future version.
#[derive(Debug, PartialEq, Eq)]
pub struct PluginSelection {
    pub plugin: String,
    pub defaulted: bool,
}

/// The failure raised when the plugin variable exists but cannot be read.
#[derive(Debug, PartialEq, Eq, Structural)]
pub enum PluginSelectionError {
    VarUnreadable,
}

/// Selects the deployment plugin from the state of the plugin environment
/// variable: its value when set; the transitional default, flagged so the
/// host warns about it, when unset; an error when unreadable.
pub fn select_deployment_plugin(var: PluginVarState) -> (r: Result<
    PluginSelection,
    PluginSelectionError,
>)
    ensures
        var matches PluginVarState::Present(v) ==> (r matches Ok(s) && s.plugin == v
            && !s.defaulted),
        var is Absent ==> (r matches Ok(s) && s.plugin@ == "cloud"@ && s.defaulted),
        var is Unreadable <==> r == Err::<PluginSelection, PluginSelectionError>(
            PluginSelectionError::VarUnreadable,
        ),
{
    match var {
        PluginVarState::Present(v) => Ok(PluginSelection { plugin: v, defaulted: false }),
        PluginVarState::Absent => Ok(
            PluginSelection { plugin: String::from_str("cloud"), defaulted: true },
        ),
        PluginVarState::Unreadable => Err(PluginSelectionError::VarUnreadable),
    }
}

fn plugin_invocation(plugin: String, subcmd: String, args: Vec<String>) -> (r: Vec<String>)
    ensures
        r@ == seq![plugin, subcmd] + args@,
{
    let mut r: Vec<String> = Vec::new();
    r.push(plugin);
    r.push(subcmd);
    let mut rest = args;
    r.append(&mut rest);
    proof {
        assert(r@ =~= seq![plugin, subcmd] + args@);
    }
    r
}

impl DeployCommand {
    /// The argument vector for the external plugin process: the selected
    /// plugin, the `deploy` subcommand, then the declared arguments in
    /// order.
    pub fn plugin_invocation(self, plugin: String) -> (r: Vec<String>)
        ensures
            r@.len() == self.args@.len() + 2,
            r@[0] == plugin,
            r@[1]@ == "deploy"@,
            forall|i: int| 0 <= i < self.args@.len() ==> r@[i + 2] == self.args@[i],
    {
        plugin_invocation(plugin, String::from_str("deploy"), self.args)
    }
}

impl LoginCommand {
    /// The argument vector for the external plugin process: the selected
    /// plugin, the `login` subcommand, then the declared arguments in
    /// order.
    pub fn plugin_invocation(self, plugin: String) -> (r: Vec<String>)
        ensures
            r@.len() == self.args@.len() + 2,
            r@[0] == plugin,
            r@[1]@ == "login"@,
            forall|i: int| 0 <= i < self.args@.len() ==> r@[i + 2] == self.args@[i],
    {
        plugin_invocation(plugin, String::from_str("login"), self.args)
    }
}

} // verus!
